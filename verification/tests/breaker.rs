use emergency_brake::{EBrake, EmergencyBrake, Trigger};

#[test]
fn it_should_create_with_defaults() {
    let ebrake = EBrake::default();
    assert_eq!(ebrake.len(), 0);
    assert_eq!(ebrake.failures(), 0);
    assert_eq!(ebrake.samples(), 0);
    assert_eq!(ebrake.successes(), 0);
    assert_eq!(ebrake.tolerance(), 0);
}

#[test]
fn it_should_return_false_when_not_triggered() {}

#[test]
fn new_records_configuration() {
    let ebrake = EBrake::new(10, 3);
    assert_eq!(ebrake.len(), 0);
    assert_eq!(ebrake.failures(), 0);
    assert_eq!(ebrake.samples(), 10);
    assert_eq!(ebrake.successes(), 0);
    assert_eq!(ebrake.tolerance(), 3);
}

#[test]
fn counts_partition_window_after_every_insertion() {
    let mut ebrake = EBrake::new(4, 1);
    let outcomes = [true, false, false, true, true, false, true, false, false];
    for outcome in outcomes {
        ebrake.add_sample(outcome);
        assert_eq!(ebrake.failures() + ebrake.successes(), ebrake.len());
    }
}

#[test]
fn window_keeps_only_the_most_recent_samples() {
    let mut ebrake = EBrake::new(3, 0);
    for outcome in [true, true, true, false, false] {
        ebrake.add_sample(outcome);
    }
    // The window now holds the last three samples: [true, false, false].
    assert_eq!(ebrake.len(), 3);
    assert_eq!(ebrake.failures(), 2);
    assert_eq!(ebrake.successes(), 1);
}

#[test]
fn window_never_grows_past_its_capacity() {
    let mut ebrake = EBrake::new(2, 0);
    for _ in 0..10 {
        ebrake.add_sample(false);
        assert!(ebrake.len() <= 2);
    }
    assert_eq!(ebrake.len(), 2);
}

#[test]
fn no_trigger_before_the_window_is_full() {
    let mut ebrake = EBrake::new(5, 0);
    for _ in 0..4 {
        ebrake.add_sample(false);
        assert_eq!(ebrake.should_trigger(), false);
    }
    ebrake.add_sample(false);
    assert_eq!(ebrake.should_trigger(), true);
}

#[test]
fn all_successes_do_not_trigger() {
    let mut ebrake = EBrake::new(25, 3);
    for _ in 0..25 {
        ebrake.add_sample(true);
    }
    assert_eq!(ebrake.should_trigger(), false);
}

#[test]
fn failures_at_tolerance_do_not_trigger() {
    let mut ebrake = EBrake::new(25, 3);
    for _ in 0..3 {
        ebrake.add_sample(false);
    }
    for _ in 0..22 {
        ebrake.add_sample(true);
    }
    assert_eq!(ebrake.len(), 25);
    assert_eq!(ebrake.failures(), 3);
    assert_eq!(ebrake.should_trigger(), false);
}

#[test]
fn failures_above_tolerance_trigger() {
    let mut ebrake = EBrake::new(25, 3);
    for _ in 0..4 {
        ebrake.add_sample(false);
    }
    for _ in 0..21 {
        ebrake.add_sample(true);
    }
    assert_eq!(ebrake.len(), 25);
    assert_eq!(ebrake.failures(), 4);
    assert_eq!(ebrake.should_trigger(), true);
}

#[test]
fn should_trigger_is_idempotent() {
    let mut ebrake = EBrake::new(2, 0);
    ebrake.add_sample(false);
    let first = ebrake.should_trigger();
    assert_eq!(ebrake.should_trigger(), first);
    assert_eq!(ebrake.should_trigger(), first);
    ebrake.add_sample(false);
    let second = ebrake.should_trigger();
    assert_eq!(second, true);
    assert_eq!(ebrake.should_trigger(), second);
    assert_eq!(ebrake.should_trigger(), second);
}

#[test]
fn evicting_a_failure_for_a_failure_keeps_the_counts() {
    let mut ebrake = EBrake::new(3, 0);
    for outcome in [false, true, true] {
        ebrake.add_sample(outcome);
    }
    assert_eq!(ebrake.failures(), 1);
    assert_eq!(ebrake.successes(), 2);
    // Oldest sample is a failure; one failure out, one failure in.
    ebrake.add_sample(false);
    assert_eq!(ebrake.failures(), 1);
    assert_eq!(ebrake.successes(), 2);
}

#[test]
fn evicting_a_success_for_a_failure_shifts_one_count() {
    let mut ebrake = EBrake::new(3, 0);
    for outcome in [true, true, false] {
        ebrake.add_sample(outcome);
    }
    assert_eq!(ebrake.failures(), 1);
    assert_eq!(ebrake.successes(), 2);
    // Oldest sample is a success; one success out, one failure in.
    ebrake.add_sample(false);
    assert_eq!(ebrake.failures(), 2);
    assert_eq!(ebrake.successes(), 1);
}

#[test]
fn zero_capacity_never_triggers() {
    let mut ebrake = EBrake::new(0, 0);
    for _ in 0..20 {
        ebrake.add_sample(false);
        assert_eq!(ebrake.len(), 0);
        assert_eq!(ebrake.failures(), 0);
        assert_eq!(ebrake.should_trigger(), false);
    }
}

#[test]
fn trigger_on_sample_reports_the_fresh_decision() {
    let mut ebrake = EBrake::new(1, 0);
    assert_eq!(ebrake.trigger_on_sample(true), false);
    assert_eq!(ebrake.trigger_on_sample(false), true);
    // Not latched: a fresh success dilutes the window again.
    assert_eq!(ebrake.trigger_on_sample(true), false);
}

#[test]
fn trigger_on_sample_matches_add_then_ask() {
    let mut composed = EBrake::new(3, 1);
    let mut stepwise = EBrake::new(3, 1);
    for outcome in [false, false, false, true, false] {
        let fired = composed.trigger_on_sample(outcome);
        stepwise.add_sample(outcome);
        assert_eq!(fired, stepwise.should_trigger());
    }
}

#[test]
fn default_trigger_is_panic() {
    assert_eq!(Trigger::default(), Trigger::Panic);
    assert_ne!(Trigger::default(), Trigger::Abort);
}
