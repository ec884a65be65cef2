use freefall::leds::Leds;
use freefall::sampler::{Evaluation, Sampler, WINDOW_SIZE};
use freefall::speaker::Speaker;
use freefall::state::{Feedback, FreeFallState, MB2};

fn stable() -> MB2 {
    MB2::Stable(FreeFallState::Stable(Leds::CenterLED, Speaker::Off))
}

fn falling() -> MB2 {
    MB2::Falling(FreeFallState::Falling(Leds::ExclamationMark, Speaker::On))
}

fn alert() -> Feedback {
    Feedback { image: Leds::ExclamationMark.falling_display(), speaker: Speaker::On }
}

fn all_clear() -> Feedback {
    Feedback { image: Leds::CenterLED.default_display(), speaker: Speaker::Off }
}

#[test]
fn window_is_five_samples() {
    assert_eq!(WINDOW_SIZE, 5);
}

#[test]
fn new_sampler_has_nothing_pending() {
    let sampler = Sampler::new();
    assert_eq!(sampler.pending(), 0);
    assert_eq!(sampler.state(), stable());
}

#[test]
fn turn_without_reading_changes_nothing() {
    let mut sampler = Sampler::new();
    assert_eq!(sampler.poll(None), None);
    assert_eq!(sampler.pending(), 0);
    assert_eq!(sampler.poll(Some((1, 2, 3))), None);
    assert_eq!(sampler.poll(None), None);
    assert_eq!(sampler.pending(), 1);
    assert_eq!(sampler.state(), stable());
}

#[test]
fn fifth_sample_is_evaluated() {
    let mut sampler = Sampler::new();
    assert_eq!(sampler.poll(Some((10, -10, 1000))), None);
    assert_eq!(sampler.poll(Some((20, -20, 1010))), None);
    assert_eq!(sampler.poll(Some((30, -30, 990))), None);
    assert_eq!(sampler.poll(Some((40, -40, 1003))), None);
    assert_eq!(sampler.pending(), 4);
    assert_eq!(
        sampler.poll(Some((51, -51, 1000))),
        Some(Evaluation { average: (30, -30, 1000), feedback: None })
    );
    assert_eq!(sampler.pending(), 0);
    assert_eq!(sampler.state(), stable());
}

#[test]
fn one_evaluation_for_every_five_samples() {
    let mut sampler = Sampler::new();
    let mut accepted = 0;
    let mut evaluations = 0;
    for turn in 0..100 {
        let reading = if turn % 3 == 1 { None } else { Some((turn, 0, 1000)) };
        if reading.is_some() {
            accepted += 1;
        }
        let evaluation = sampler.poll(reading);
        if evaluation.is_some() {
            evaluations += 1;
            assert!(reading.is_some());
            assert_eq!(accepted % 5, 0);
        }
        assert_eq!(evaluations, accepted / 5);
        assert_eq!(i32::from(sampler.pending()), accepted % 5);
    }
    assert_eq!(accepted, 67);
    assert_eq!(evaluations, 13);
}

#[test]
fn each_window_is_averaged_on_its_own() {
    let mut sampler = Sampler::new();
    let mut averages = Vec::new();
    for i in 0..15 {
        if let Some(evaluation) = sampler.poll(Some((i, 10 * i, 1000 - i))) {
            averages.push(evaluation.average);
        }
    }
    assert_eq!(averages, vec![(2, 20, 998), (7, 70, 993), (12, 120, 988)]);
}

#[test]
fn fall_and_recovery_through_the_loop() {
    let mut sampler = Sampler::new();
    let mut feedback = Vec::new();
    // One window at rest, two in free fall, one in between, two at rest.
    let windows: [(i32, i32, i32); 6] =
        [(0, 0, 1000), (3, -4, 20), (0, 0, 0), (0, 0, 520), (0, 30, 990), (0, 0, 1000)];
    for sample in windows {
        for _ in 0..5 {
            if let Some(evaluation) = sampler.poll(Some(sample)) {
                assert_eq!(evaluation.average, sample);
                feedback.push(evaluation.feedback);
            }
        }
    }
    assert_eq!(
        feedback,
        vec![None, Some(alert()), None, None, Some(all_clear()), None]
    );
    assert_eq!(sampler.state(), stable());
}

#[test]
fn the_average_decides_and_not_the_last_sample() {
    let mut sampler = Sampler::new();
    for _ in 0..4 {
        assert_eq!(sampler.poll(Some((0, 0, 1000))), None);
    }
    // The last sample alone is free fall; the mean of the window is 0.8 g.
    assert_eq!(
        sampler.poll(Some((0, 0, 0))),
        Some(Evaluation { average: (0, 0, 800), feedback: None })
    );
    assert_eq!(sampler.state(), stable());

    for _ in 0..4 {
        assert_eq!(sampler.poll(Some((0, 0, 0))), None);
    }
    // The last sample alone is at rest; the mean of the window is 0.4 g.
    assert_eq!(
        sampler.poll(Some((0, 0, 2000))),
        Some(Evaluation { average: (0, 0, 400), feedback: Some(alert()) })
    );
    assert_eq!(sampler.state(), falling());
}

#[test]
fn windows_of_extreme_samples_are_averaged_exactly() {
    let mut sampler = Sampler::new();
    for _ in 0..4 {
        assert_eq!(sampler.poll(Some((i32::MIN, i32::MAX, 0))), None);
    }
    assert_eq!(
        sampler.poll(Some((i32::MIN, i32::MAX, -4))),
        Some(Evaluation { average: (i32::MIN, i32::MAX, 0), feedback: None })
    );
    assert_eq!(sampler.pending(), 0);
}

#[test]
fn turns_without_readings_never_evaluate() {
    let mut sampler = Sampler::new();
    for _ in 0..4 {
        assert_eq!(sampler.poll(Some((0, 0, 0))), None);
    }
    for _ in 0..50 {
        assert_eq!(sampler.poll(None), None);
    }
    assert_eq!(sampler.pending(), 4);
    assert_eq!(sampler.state(), stable());
    assert_eq!(
        sampler.poll(Some((0, 0, 0))),
        Some(Evaluation { average: (0, 0, 0), feedback: Some(alert()) })
    );
}
