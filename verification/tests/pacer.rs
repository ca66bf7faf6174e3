use pig_game::pacer::DecisionPacer;
use pig_game::pacer::DEFAULT_INTERVAL_NANOS;

#[test]
fn default_interval_is_half_a_second() {
    assert_eq!(DEFAULT_INTERVAL_NANOS, 500_000_000);
    let pacer = DecisionPacer::default();
    assert_eq!(pacer.interval(), 500_000_000);
    assert_eq!(pacer.elapsed(), 0);
}

#[test]
fn pacer_gathers_until_the_interval_is_full() {
    let mut pacer = DecisionPacer::new(500);
    assert!(!pacer.advance(200));
    assert_eq!(pacer.elapsed(), 200);
    assert!(!pacer.advance(299));
    assert_eq!(pacer.elapsed(), 499);
    assert!(pacer.advance(1));
    assert_eq!(pacer.elapsed(), 0);
    assert_eq!(pacer.interval(), 500);
}

#[test]
fn pacer_carries_the_remainder() {
    let mut pacer = DecisionPacer::new(500);
    assert!(!pacer.advance(400));
    assert!(pacer.advance(300));
    assert_eq!(pacer.elapsed(), 200);
    assert!(pacer.advance(300));
    assert_eq!(pacer.elapsed(), 0);
    assert!(!pacer.advance(0));
    assert_eq!(pacer.elapsed(), 0);
}

#[test]
fn pacer_fires_once_for_several_intervals() {
    let mut pacer = DecisionPacer::new(500);
    assert!(pacer.advance(1_700));
    assert_eq!(pacer.elapsed(), 200);
    assert!(pacer.advance(5_000));
    assert_eq!(pacer.elapsed(), 200);
    assert!(pacer.advance(300));
    assert_eq!(pacer.elapsed(), 0);
}

#[test]
fn pacer_takes_the_longest_times() {
    let mut pacer = DecisionPacer::new(u64::MAX);
    assert!(!pacer.advance(u64::MAX - 1));
    assert_eq!(pacer.elapsed(), u64::MAX - 1);
    assert!(pacer.advance(u64::MAX));
    assert_eq!(pacer.elapsed(), u64::MAX - 1);
    assert!(pacer.advance(1));
    assert_eq!(pacer.elapsed(), 0);
    let mut pacer = DecisionPacer::new(7);
    assert!(pacer.advance(u64::MAX));
    assert_eq!(pacer.elapsed(), u64::MAX % 7);
    assert!(pacer.advance(u64::MAX));
    assert_eq!(pacer.elapsed(), (u64::MAX % 7 * 2) % 7);
}

#[test]
fn pacer_with_no_interval_is_always_due() {
    let mut pacer = DecisionPacer::new(0);
    assert!(pacer.advance(0));
    assert_eq!(pacer.elapsed(), 0);
    assert!(pacer.advance(123));
    assert_eq!(pacer.elapsed(), 0);
    assert!(pacer.advance(u64::MAX));
    assert_eq!(pacer.elapsed(), 0);
}

#[test]
fn pacer_of_one_nanosecond() {
    let mut pacer = DecisionPacer::new(1);
    assert!(!pacer.advance(0));
    assert!(pacer.advance(1));
    assert_eq!(pacer.elapsed(), 0);
    assert!(pacer.advance(10));
    assert_eq!(pacer.elapsed(), 0);
}
