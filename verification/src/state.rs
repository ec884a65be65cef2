//! The state machine of the falling board, and the accumulator that feeds it.

use crate::leds::{Image, Leds};
use crate::magnitude::{
    below_fall_threshold, in_dead_zone, reaches_recovery_threshold, squared_norm, AccelSample,
    FALL_THRESHOLD_MG, RECOVERY_THRESHOLD_MG,
};
use crate::speaker::Speaker;
use crate::window::{
    lemma_mean_fits, lemma_mean_of_one, lemma_sum_bounds, lemma_sum_push, truncated_quotient,
    window_mean, window_sum,
};
use vstd::prelude::*;

verus! {

/// The two states that the board can be in, each with the picture and the
/// speaker setting that go with it.
#[derive(Debug, Clone, Copy, PartialEq, Eq, Structural)]
pub enum FreeFallState {
    Falling(Leds, Speaker),
    Stable(Leds, Speaker),
}

/// The board has one of two states: `Stable`, which is the default, and
/// `Falling`, in which the measured acceleration has dropped below half of
/// the acceleration of gravity.
#[derive(Debug, Clone, Copy, PartialEq, Eq, Structural)]
pub enum MB2 {
    Stable(FreeFallState),
    Falling(FreeFallState),
}

/// What the hardware is to do when a state is entered: the image to put on
/// the display and the setting to give the speaker.
#[derive(Debug, Clone, Copy, PartialEq, Eq)]
pub struct Feedback {
    pub image: Image,
    pub speaker: Speaker,
}

impl MB2 {
    /// The stable state: the center LED, the speaker off.
    pub open spec fn stable() -> MB2 {
        MB2::Stable(FreeFallState::Stable(Leds::CenterLED, Speaker::Off))
    }

    /// The falling state: the exclamation mark, the speaker on.
    pub open spec fn falling() -> MB2 {
        MB2::Falling(FreeFallState::Falling(Leds::ExclamationMark, Speaker::On))
    }

    /// The state on the other side of a transition.
    pub open spec fn toggled(self) -> MB2 {
        match self {
            MB2::Stable(_) => MB2::falling(),
            MB2::Falling(_) => MB2::stable(),
        }
    }

    /// Whether an averaged sample makes the board leave this state: a stable
    /// board leaves when the magnitude is below the fall threshold, a falling
    /// board when it reaches the recovery threshold.
    pub open spec fn leaves_on(self, average: AccelSample) -> bool {
        match self {
            MB2::Stable(_) => below_fall_threshold(average),
            MB2::Falling(_) => reaches_recovery_threshold(average),
        }
    }

    /// The state after an averaged sample has been evaluated.
    pub open spec fn evaluated(self, average: AccelSample) -> MB2 {
        if self.leaves_on(average) {
            self.toggled()
        } else {
            self
        }
    }

    /// `feedback` is what entering this state asks of the hardware: the
    /// center LED and a silent speaker for `Stable`, the exclamation mark and
    /// a sounding speaker for `Falling`.
    pub open spec fn entered_with(self, feedback: Feedback) -> bool {
        match self {
            MB2::Stable(_) => Leds::CenterLED.drawn_in(feedback.image) && feedback.speaker
                == Speaker::Off,
            MB2::Falling(_) => Leds::ExclamationMark.drawn_in(feedback.image) && feedback.speaker
                == Speaker::On,
        }
    }

    /// Creates the default state, `Stable`.
    pub fn new() -> (state: MB2)
        ensures
            state == MB2::stable(),
    {
        MB2::Stable(FreeFallState::Stable(Leds::new(), Speaker::new()))
    }

    /// What the display and the speaker are to do now that this state has
    /// been entered.
    pub fn on_entry(&self) -> (feedback: Feedback)
        ensures
            self.entered_with(feedback),
    {
        match self {
            MB2::Stable(..) => Feedback {
                image: Leds::CenterLED.default_display(),
                speaker: Speaker::Off,
            },
            MB2::Falling(..) => Feedback {
                image: Leds::ExclamationMark.falling_display(),
                speaker: Speaker::On,
            },
        }
    }

    /// Moves to the other state and returns it: `Stable` becomes `Falling`,
    /// `Falling` becomes `Stable`. What the hardware is to do on entering the
    /// new state is its `on_entry`.
    pub fn next(&mut self) -> (state: MB2)
        ensures
            *final(self) == old(self).toggled(),
            state == *final(self),
    {
        match self {
            MB2::Stable(..) => {
                *self = MB2::Falling(FreeFallState::Falling(Leds::ExclamationMark, Speaker::On));
            },
            MB2::Falling(..) => {
                *self = MB2::Stable(FreeFallState::Stable(Leds::CenterLED, Speaker::Off));
            },
        }
        *self
    }
}

/// Why an accumulator could not give an average.
#[derive(Debug, Clone, Copy, PartialEq, Eq, Structural)]
pub enum WindowError {
    /// No sample has been added since the accumulator was created or last
    /// reset.
    EmptyWindow,
}

/// What a `BoardAccel` stands for: the samples added since it was created or
/// last reset, oldest first, and the state of the board.
pub struct AccelModel {
    pub samples: Seq<AccelSample>,
    pub state: MB2,
}

impl AccelModel {
    /// No samples, and a stable board.
    pub open spec fn initial() -> AccelModel {
        AccelModel { samples: Seq::empty(), state: MB2::stable() }
    }

    /// One more sample in the window.
    pub open spec fn added(self, sample: AccelSample) -> AccelModel {
        AccelModel { samples: self.samples.push(sample), state: self.state }
    }

    /// The samples of `more` added one after the other.
    pub open spec fn added_all(self, more: Seq<AccelSample>) -> AccelModel
        decreases more.len(),
    {
        if more.len() == 0 {
            self
        } else {
            self.added_all(more.drop_last()).added(more.last())
        }
    }

    /// The average of the window: the mean of its samples, each axis rounded
    /// toward zero, or `EmptyWindow` where there is no sample.
    pub open spec fn average(self) -> Result<AccelSample, WindowError> {
        if self.samples.len() == 0 {
            Err(WindowError::EmptyWindow)
        } else {
            Ok(window_mean(self.samples))
        }
    }

    /// The window emptied, the state kept.
    pub open spec fn cleared(self) -> AccelModel {
        AccelModel { samples: Seq::empty(), state: self.state }
    }

    /// The state moved on by an averaged sample, the window kept.
    pub open spec fn evaluated(self, average: AccelSample) -> AccelModel {
        AccelModel { samples: self.samples, state: self.state.evaluated(average) }
    }
}

/// Running sums of the samples of one window, and the state of the board.
///
/// The sums are 64 bits wide: a window of up to `u32::MAX` samples of type
/// `i32` cannot overflow them.
#[derive(Clone, Copy)]
pub struct BoardAccel {
    x: i64,
    y: i64,
    z: i64,
    sample_size: u32,
    state: MB2,
    window: Ghost<Seq<AccelSample>>,
}

impl View for BoardAccel {
    type V = AccelModel;

    closed spec fn view(&self) -> AccelModel {
        AccelModel { samples: self.window@, state: self.state }
    }
}

impl BoardAccel {
    #[verifier::type_invariant]
    spec fn sums_match_window(self) -> bool {
        &&& self.sample_size == self.window@.len()
        &&& self.x == window_sum(self.window@).0
        &&& self.y == window_sum(self.window@).1
        &&& self.z == window_sum(self.window@).2
    }

    /// Creates an accumulator with an empty window and a stable board.
    pub fn new() -> (accel: BoardAccel)
        ensures
            accel@ == AccelModel::initial(),
    {
        BoardAccel {
            x: 0,
            y: 0,
            z: 0,
            sample_size: 0,
            state: MB2::new(),
            window: Ghost(Seq::empty()),
        }
    }

    /// The sums of the samples in the window, axis by axis.
    pub fn total(&self) -> (total: (i64, i64, i64))
        ensures
            (total.0 as int, total.1 as int, total.2 as int) == window_sum(self@.samples),
    {
        proof {
            use_type_invariant(self);
        }
        (self.x, self.y, self.z)
    }

    /// The number of samples in the window.
    pub fn sample_size(&self) -> (count: u32)
        ensures
            count == self@.samples.len(),
    {
        proof {
            use_type_invariant(self);
        }
        self.sample_size
    }

    /// The state of the board.
    pub fn state(&self) -> (state: MB2)
        ensures
            state == self@.state,
    {
        self.state
    }

    /// Adds the x, y, z acceleration values to the totals and increments the
    /// sample size.
    pub fn add_to_total(&mut self, x: i32, y: i32, z: i32)
        requires
            old(self)@.samples.len() < u32::MAX,
        ensures
            final(self)@ == old(self)@.added((x, y, z)),
    {
        proof {
            use_type_invariant(&*self);
            lemma_sum_push(self.window@, (x, y, z));
            lemma_sum_bounds(self.window@.push((x, y, z)));
        }
        *self = BoardAccel {
            x: self.x + x as i64,
            y: self.y + y as i64,
            z: self.z + z as i64,
            sample_size: self.sample_size + 1,
            state: self.state,
            window: Ghost(self.window@.push((x, y, z))),
        };
    }

    /// Adds a sample given as a tuple instead of three arguments.
    pub fn add_tuple_to_total(&mut self, accel_tuple: AccelSample)
        requires
            old(self)@.samples.len() < u32::MAX,
        ensures
            final(self)@ == old(self)@.added(accel_tuple),
    {
        let (x, y, z): (i32, i32, i32) = accel_tuple;
        self.add_to_total(x, y, z);
    }

    /// Calculates the average over the samples of the window, then resets the
    /// sums and the sample size. Returns the averaged x, y, z as a tuple, or
    /// `EmptyWindow` where no sample has been added.
    pub fn average_over_sample(&mut self) -> (average: Result<AccelSample, WindowError>)
        ensures
            average == old(self)@.average(),
            final(self)@ == old(self)@.cleared(),
    {
        proof {
            use_type_invariant(&*self);
        }
        if self.sample_size == 0 {
            assert(self.window@ =~= Seq::<AccelSample>::empty());
            Err(WindowError::EmptyWindow)
        } else {
            Ok(self.take_average())
        }
    }

    /// The average over a window that holds at least one sample; the window
    /// is empty afterwards.
    pub(crate) fn take_average(&mut self) -> (average: AccelSample)
        requires
            old(self)@.samples.len() > 0,
        ensures
            average == window_mean(old(self)@.samples),
            final(self)@ == old(self)@.cleared(),
    {
        proof {
            use_type_invariant(&*self);
            lemma_mean_fits(self.window@);
        }
        let count: i64 = self.sample_size as i64;
        let average: AccelSample = (
            (self.x / count) as i32,
            (self.y / count) as i32,
            (self.z / count) as i32,
        );
        self.reset();
        average
    }

    /// Resets the sums and the sample size to zero.
    pub fn reset(&mut self)
        ensures
            final(self)@ == old(self)@.cleared(),
    {
        *self = BoardAccel {
            x: 0,
            y: 0,
            z: 0,
            sample_size: 0,
            state: self.state,
            window: Ghost(Seq::empty()),
        };
    }

    /// Decides from an averaged sample whether the board is falling.
    ///
    /// The magnitude of the acceleration is `sqrt(x^2 + y^2 + z^2)`, here in
    /// milli-g. A stable board starts falling when the magnitude is below
    /// half of gravity. A falling board becomes stable again only at 55% of
    /// gravity, so that a magnitude that wavers around 50% does not switch
    /// the state back and forth.
    ///
    /// Returns the feedback for the state just entered where the state has
    /// changed, and nothing where it has not.
    pub fn microbit_is_falling(&mut self, x: i32, y: i32, z: i32) -> (feedback: Option<Feedback>)
        ensures
            final(self)@ == old(self)@.evaluated((x, y, z)),
            feedback is Some <==> old(self)@.state.leaves_on((x, y, z)),
            feedback matches Some(f) ==> final(self)@.state.entered_with(f),
    {
        proof {
            use_type_invariant(&*self);
        }
        let strength: u64 = squared_norm(x, y, z);
        let leaves: bool = match self.state {
            MB2::Falling(..) => strength >= RECOVERY_THRESHOLD_MG * RECOVERY_THRESHOLD_MG,
            MB2::Stable(..) => strength < FALL_THRESHOLD_MG * FALL_THRESHOLD_MG,
        };
        if leaves {
            let mut state: MB2 = self.state;
            let entered: MB2 = state.next();
            *self = BoardAccel {
                x: self.x,
                y: self.y,
                z: self.z,
                sample_size: self.sample_size,
                state: entered,
                window: self.window,
            };
            Some(entered.on_entry())
        } else {
            None
        }
    }
}

/// Adding samples one after the other appends them to the window and leaves
/// the state alone.
pub proof fn lemma_added_all(start: AccelModel, more: Seq<AccelSample>)
    ensures
        start.added_all(more).samples == start.samples + more,
        start.added_all(more).state == start.state,
    decreases more.len(),
{
    if more.len() == 0 {
        assert(start.samples + more =~= start.samples);
    } else {
        lemma_added_all(start, more.drop_last());
        assert((start.samples + more.drop_last()).push(more.last()) =~= start.samples + more);
    }
}

/// Averaging is correct: after one or more samples have been added to an
/// empty window, the average is the mean of exactly those samples, each axis
/// divided with rounding toward zero, and an average asked for again, with no
/// sample added in between, fails with `EmptyWindow`.
pub proof fn lemma_average_of_added_samples(start: AccelModel, samples: Seq<AccelSample>)
    requires
        start.samples.len() == 0,
        samples.len() >= 1,
    ensures
        start.added_all(samples).average() == Ok::<AccelSample, WindowError>(window_mean(samples)),
        window_mean(samples).0 == truncated_quotient(window_sum(samples).0, samples.len() as int),
        window_mean(samples).1 == truncated_quotient(window_sum(samples).1, samples.len() as int),
        window_mean(samples).2 == truncated_quotient(window_sum(samples).2, samples.len() as int),
        start.added_all(samples).cleared().average() == Err::<AccelSample, WindowError>(
            WindowError::EmptyWindow,
        ),
{
    lemma_added_all(start, samples);
    assert(start.samples + samples =~= samples);
    lemma_mean_fits(samples);
}

/// The reset that comes with an average is complete: whatever the
/// accumulator held before, one sample added right after an average is
/// returned unchanged by the next average.
pub proof fn lemma_average_forgets_history(before: AccelModel, sample: AccelSample)
    ensures
        before.cleared().added(sample).average() == Ok::<AccelSample, WindowError>(sample),
{
    assert(before.cleared().added(sample).samples =~= seq![sample]);
    lemma_mean_of_one(sample);
}

/// Between the two thresholds nothing happens: an averaged sample whose
/// magnitude is above the fall threshold and below the recovery threshold
/// leaves either state as it is.
pub proof fn lemma_dead_zone_keeps_state(state: MB2, average: AccelSample)
    requires
        in_dead_zone(average),
    ensures
        !state.leaves_on(average),
        state.evaluated(average) == state,
{
}

} // verus!
