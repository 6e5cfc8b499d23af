use mediatoascii::progress::observe_step;
use mediatoascii::progress::ProgressFraction;
use mediatoascii::progress::ProgressState;
use mediatoascii::progress::WatchStep;
use mediatoascii::progress::PROGRESS_SCALE;

#[test]
fn zero_and_complete_fractions() {
    assert_eq!(ProgressFraction::zero().units, 0);
    assert_eq!(ProgressFraction::complete().units, PROGRESS_SCALE);
    assert!(!ProgressFraction::zero().is_complete());
    assert!(ProgressFraction::complete().is_complete());
}

#[test]
fn from_ratio_exact_values() {
    assert_eq!(ProgressFraction::from_ratio(1, 4).units, 250_000);
    assert_eq!(ProgressFraction::from_ratio(1, 3).units, 333_333);
    assert_eq!(ProgressFraction::from_ratio(0, 5).units, 0);
    assert_eq!(ProgressFraction::from_ratio(7, 7).units, PROGRESS_SCALE);
}

#[test]
fn from_ratio_full_is_complete() {
    assert!(ProgressFraction::from_ratio(9, 9).is_complete());
    assert!(!ProgressFraction::from_ratio(8, 9).is_complete());
}

#[test]
fn fresh_state_reports_nothing() {
    let s = ProgressState::new();
    assert_eq!(s.read().units, 0);
}

#[test]
fn reset_forgets_previous_job() {
    let mut s = ProgressState::new();
    s.finish();
    assert_eq!(s.read().units, PROGRESS_SCALE);
    s.reset();
    assert_eq!(s.read().units, 0);
}

#[test]
fn advance_moves_forward_only() {
    let mut s = ProgressState::new();
    s.advance(ProgressFraction::from_ratio(1, 2));
    assert_eq!(s.read().units, 500_000);
    s.advance(ProgressFraction::from_ratio(1, 4));
    assert_eq!(s.read().units, 500_000);
    s.advance(ProgressFraction::from_ratio(3, 4));
    assert_eq!(s.read().units, 750_000);
}

#[test]
fn observe_step_publishes_current_fraction() {
    let mut s = ProgressState::new();
    s.advance(ProgressFraction::from_ratio(1, 4));
    match observe_step(&s) {
        WatchStep::Publish(f) => assert_eq!(f.units, 250_000),
        WatchStep::Finished => panic!("watcher stopped before completion"),
    }
}

#[test]
fn observe_step_stops_at_completion_and_not_before() {
    let mut s = ProgressState::new();
    s.advance(ProgressFraction { units: PROGRESS_SCALE - 1 });
    assert!(matches!(observe_step(&s), WatchStep::Publish(_)));
    s.finish();
    assert!(matches!(observe_step(&s), WatchStep::Finished));
}

#[test]
fn published_fractions_are_monotone_across_polls() {
    let mut s = ProgressState::new();
    let mut published: Vec<u32> = Vec::new();
    let reports: [(u64, u64); 6] = [(1, 10), (3, 10), (3, 10), (2, 10), (7, 10), (10, 10)];
    for (done, total) in reports {
        s.advance(ProgressFraction::from_ratio(done, total));
        match observe_step(&s) {
            WatchStep::Publish(f) => published.push(f.units),
            WatchStep::Finished => break,
        }
    }
    for pair in published.windows(2) {
        assert!(pair[0] <= pair[1]);
    }
    assert!(matches!(observe_step(&s), WatchStep::Finished));
}
