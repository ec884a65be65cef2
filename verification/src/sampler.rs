//! The sampling loop: one sample at a time goes into the window, and every
//! full window is averaged and handed to the state machine.

use crate::magnitude::AccelSample;
use crate::state::{AccelModel, BoardAccel, Feedback, MB2};
use crate::window::window_mean;
use vstd::prelude::*;

verus! {

/// The number of samples that make a window.
pub const WINDOW_SIZE: u8 = 5;

/// The outcome of one full window: its average, and the feedback to give
/// where the average has changed the state of the board.
#[derive(Debug, Clone, Copy, PartialEq, Eq)]
pub struct Evaluation {
    pub average: AccelSample,
    pub feedback: Option<Feedback>,
}

impl AccelModel {
    /// Whether `reading` is the sample that fills the window.
    pub open spec fn completes_window(self, reading: Option<AccelSample>) -> bool {
        reading is Some && self.samples.len() + 1 >= WINDOW_SIZE
    }

    /// The model after one turn of the loop. Without a reading nothing
    /// changes. A reading goes into the window; where it fills the window,
    /// the window is averaged and emptied and the average is evaluated.
    pub open spec fn polled(self, reading: Option<AccelSample>) -> AccelModel {
        match reading {
            None => self,
            Some(sample) => if self.completes_window(reading) {
                self.cleared().evaluated(window_mean(self.samples.push(sample)))
            } else {
                self.added(sample)
            },
        }
    }
}

/// The state of the sampling loop: the accumulator with the state of the
/// board, and the count of samples taken into the current window.
pub struct Sampler {
    accel: BoardAccel,
    counter: u8,
}

impl View for Sampler {
    type V = AccelModel;

    closed spec fn view(&self) -> AccelModel {
        self.accel@
    }
}

impl Sampler {
    #[verifier::type_invariant]
    spec fn window_is_partial(self) -> bool {
        self.counter == self.accel@.samples.len() && self.counter < WINDOW_SIZE
    }

    /// A loop that has taken no sample yet, with a stable board.
    pub fn new() -> (sampler: Sampler)
        ensures
            sampler@ == AccelModel::initial(),
    {
        Sampler { accel: BoardAccel::new(), counter: 0 }
    }

    /// The number of samples in the window; it is always short of a full
    /// window.
    pub fn pending(&self) -> (count: u8)
        ensures
            count == self@.samples.len(),
            count < WINDOW_SIZE,
    {
        proof {
            use_type_invariant(self);
        }
        self.counter
    }

    /// The state of the board.
    pub fn state(&self) -> (state: MB2)
        ensures
            state == self@.state,
    {
        self.accel.state()
    }

    /// One turn of the loop. `reading` is the sample that the sensor had
    /// ready, if it had one.
    ///
    /// A sample is added to the window. The sample that fills the window has
    /// the window averaged and emptied and the average evaluated; the turn
    /// then returns the average together with the feedback of the state
    /// machine. Every other turn returns nothing.
    pub fn poll(&mut self, reading: Option<AccelSample>) -> (evaluation: Option<Evaluation>)
        ensures
            final(self)@ == old(self)@.polled(reading),
            evaluation is Some <==> old(self)@.completes_window(reading),
            evaluation matches Some(e) ==> e.average == window_mean(
                old(self)@.samples.push(reading.unwrap()),
            ),
            evaluation matches Some(e) ==> (e.feedback is Some <==> old(self)@.state.leaves_on(
                e.average,
            )),
            evaluation matches Some(e) ==> (e.feedback matches Some(f) ==> final(self)@.state
                .entered_with(f)),
    {
        proof {
            use_type_invariant(&*self);
        }
        match reading {
            None => None,
            Some(sample) => {
                let mut accel: BoardAccel = self.accel;
                accel.add_tuple_to_total(sample);
                if self.counter + 1 >= WINDOW_SIZE {
                    let average: AccelSample = accel.take_average();
                    let feedback: Option<Feedback> = accel.microbit_is_falling(
                        average.0,
                        average.1,
                        average.2,
                    );
                    *self = Sampler { accel, counter: 0 };
                    Some(Evaluation { average, feedback })
                } else {
                    *self = Sampler { accel, counter: self.counter + 1 };
                    None
                }
            },
        }
    }
}

/// The samples among `readings`, in order: the turns on which the sensor had
/// one ready.
pub open spec fn accepted(readings: Seq<Option<AccelSample>>) -> Seq<AccelSample>
    decreases readings.len(),
{
    if readings.len() == 0 {
        Seq::empty()
    } else {
        match readings.last() {
            Some(sample) => accepted(readings.drop_last()).push(sample),
            None => accepted(readings.drop_last()),
        }
    }
}

/// The model after one turn of the loop for each of `readings`.
pub open spec fn after_polls(start: AccelModel, readings: Seq<Option<AccelSample>>) -> AccelModel
    decreases readings.len(),
{
    if readings.len() == 0 {
        start
    } else {
        after_polls(start, readings.drop_last()).polled(readings.last())
    }
}

/// The windows that were averaged and evaluated in the course of one turn of
/// the loop for each of `readings`, in order.
pub open spec fn evaluated_windows(start: AccelModel, readings: Seq<Option<AccelSample>>) -> Seq<
    Seq<AccelSample>,
>
    decreases readings.len(),
{
    if readings.len() == 0 {
        Seq::empty()
    } else {
        let before = after_polls(start, readings.drop_last());
        let windows = evaluated_windows(start, readings.drop_last());
        if before.completes_window(readings.last()) {
            windows.push(before.samples.push(readings.last().unwrap()))
        } else {
            windows
        }
    }
}

/// The state after the averages of `windows` have been evaluated one after
/// the other.
pub open spec fn state_after(state: MB2, windows: Seq<Seq<AccelSample>>) -> MB2
    decreases windows.len(),
{
    if windows.len() == 0 {
        state
    } else {
        state_after(state, windows.drop_last()).evaluated(window_mean(windows.last()))
    }
}

/// The cadence of the loop: started on an empty window, it evaluates once for
/// every `WINDOW_SIZE` samples it has accepted, and never on less. The k-th
/// window evaluated holds the k-th run of `WINDOW_SIZE` accepted samples, the
/// samples accepted since the last full run wait in the window, and the state
/// of the board is what the averages of the evaluated windows, and nothing
/// else, have made of it.
pub proof fn lemma_window_cadence(start: AccelModel, readings: Seq<Option<AccelSample>>)
    requires
        start.samples.len() == 0,
    ensures
        evaluated_windows(start, readings).len() == accepted(readings).len() / (WINDOW_SIZE as nat),
        forall|k: int|
            0 <= k < evaluated_windows(start, readings).len() ==> #[trigger] evaluated_windows(
                start,
                readings,
            )[k] == accepted(readings).subrange(k * WINDOW_SIZE, (k + 1) * WINDOW_SIZE),
        after_polls(start, readings).samples == accepted(readings).subrange(
            evaluated_windows(start, readings).len() * WINDOW_SIZE,
            accepted(readings).len() as int,
        ),
        after_polls(start, readings).state == state_after(
            start.state,
            evaluated_windows(start, readings),
        ),
    decreases readings.len(),
{
    let taken = accepted(readings);
    let windows = evaluated_windows(start, readings);
    if readings.len() == 0 {
        assert(start.samples =~= taken.subrange(0, 0));
    } else {
        let earlier = readings.drop_last();
        lemma_window_cadence(start, earlier);
        let before = after_polls(start, earlier);
        let taken_before = accepted(earlier);
        let windows_before = evaluated_windows(start, earlier);
        let full = windows_before.len() as int;
        match readings.last() {
            None => {},
            Some(sample) => {
                assert(taken == taken_before.push(sample));
                assert forall|k: int| 0 <= k < full implies windows[k] == taken.subrange(
                    k * WINDOW_SIZE,
                    (k + 1) * WINDOW_SIZE,
                ) by {
                    assert(windows[k] == windows_before[k]);
                    assert(taken_before.subrange(k * WINDOW_SIZE, (k + 1) * WINDOW_SIZE)
                        =~= taken.subrange(k * WINDOW_SIZE, (k + 1) * WINDOW_SIZE));
                }
                if before.completes_window(readings.last()) {
                    assert(windows.drop_last() =~= windows_before);
                    assert(windows[full] =~= taken.subrange(
                        full * WINDOW_SIZE,
                        (full + 1) * WINDOW_SIZE,
                    ));
                    assert(after_polls(start, readings).samples =~= taken.subrange(
                        (full + 1) * WINDOW_SIZE,
                        taken.len() as int,
                    ));
                } else {
                    assert(after_polls(start, readings).samples =~= taken.subrange(
                        full * WINDOW_SIZE,
                        taken.len() as int,
                    ));
                }
            },
        }
    }
}

} // verus!
