use monotonic_clock::Dur;
use monotonic_clock::Epoch;
use monotonic_clock::InnerClock;

#[test]
fn dur_constructors_exact() {
    assert_eq!(Dur::zero().as_nanos(), 0);
    assert!(Dur::zero().is_zero());
    assert_eq!(Dur::from_nanos(7).as_nanos(), 7);
    assert_eq!(Dur::from_secs(1).as_nanos(), 1_000_000_000);
    assert_eq!(Dur::from_millis(1500).as_secs(), 1);
    assert_eq!(Dur::from_millis(1500).subsec_nanos(), 500_000_000);
    assert!(!Dur::from_nanos(1).is_zero());
}

#[test]
fn dur_checked_add_and_sub() {
    let a = Dur::from_secs(3);
    let b = Dur::from_millis(250);
    assert_eq!(a.checked_add(&b), Some(Dur::from_millis(3250)));
    assert_eq!(a.checked_sub(&b), Some(Dur::from_millis(2750)));
    assert_eq!(b.checked_sub(&a), None);
    assert_eq!(Dur::from_nanos(u128::MAX).checked_add(&Dur::from_nanos(1)), None);
}

#[test]
fn dur_saturating_add_and_sub() {
    let a = Dur::from_secs(3);
    let b = Dur::from_millis(250);
    assert_eq!(a.saturating_add(&b), Dur::from_millis(3250));
    assert_eq!(a.saturating_sub(&b), Dur::from_millis(2750));
    assert_eq!(b.saturating_sub(&a), Dur::zero());
    assert_eq!(
        Dur::from_nanos(u128::MAX).saturating_add(&Dur::from_secs(5)),
        Dur::from_nanos(u128::MAX)
    );
}

#[test]
fn epoch_arithmetic_exact() {
    let two = Epoch::from(Dur::from_secs(2));
    let one = Epoch::from(Dur::from_secs(1));
    assert_eq!(two.add(one), Epoch::from(Dur::from_secs(3)));
    assert_eq!(two.sub(one), Epoch::from(Dur::from_secs(1)));
    assert_eq!(two.add_duration(Dur::from_millis(1)), Epoch::from(Dur::from_nanos(2_001_000_000)));
    assert_eq!(two.sub_duration(Dur::from_millis(1)), Epoch::from(Dur::from_nanos(1_999_000_000)));
    assert_eq!(Epoch::from_zero().duration(), Dur::zero());
    assert_eq!(two.duration(), Dur::from_secs(2));
}

#[test]
fn epoch_assign_forms() {
    let mut e = Epoch::from(Dur::from_secs(5));
    e.add_assign(Epoch::from(Dur::from_secs(2)));
    assert_eq!(e.duration(), Dur::from_secs(7));
    e.sub_assign(Epoch::from(Dur::from_secs(3)));
    assert_eq!(e.duration(), Dur::from_secs(4));
    e.add_duration_assign(Dur::from_millis(500));
    assert_eq!(e.duration(), Dur::from_millis(4500));
    e.sub_duration_assign(Dur::from_millis(1500));
    assert_eq!(e.duration(), Dur::from_secs(3));
}

#[test]
fn defaults_match_the_constructors() {
    assert!(Epoch::default().duration() > Dur::zero());
    let c = InnerClock::default();
    assert!(c.is_ticking());
    assert_eq!(c.now_at(Dur::zero()), Dur::zero());
}

#[test]
fn stopwatch_transitions_exact() {
    let mut c = InnerClock::new();
    c.start_at(Dur::from_nanos(5));
    assert_eq!(c.now_at(Dur::from_nanos(8)), Dur::from_nanos(3));
    assert!(c.is_ticking());

    let frozen = c.stop_at(Dur::from_nanos(9));
    assert_eq!(frozen, Some(Dur::from_nanos(4)));
    assert!(!c.is_ticking());
    assert_eq!(c.now_at(Dur::from_nanos(100)), Dur::from_nanos(4));
    assert_eq!(c.now_at(Dur::from_nanos(1)), Dur::from_nanos(4));

    let again = c.stop_at(Dur::from_nanos(50));
    assert_eq!(again, Some(Dur::from_nanos(4)));

    let paused = c.resume_at(Dur::from_nanos(12));
    assert_eq!(paused, Some(Dur::from_nanos(3)));
    assert!(c.is_ticking());
    assert_eq!(c.now_at(Dur::from_nanos(12)), Dur::from_nanos(7));

    let noop = c.resume_at(Dur::from_nanos(20));
    assert_eq!(noop, Some(Dur::zero()));
    assert_eq!(c.now_at(Dur::from_nanos(20)), Dur::from_nanos(15));
}

#[test]
fn stopwatch_reset_clears_axes() {
    let mut c = InnerClock::new();
    c.start_at(Dur::from_nanos(10));
    let frozen = c.stop_at(Dur::from_nanos(40));
    assert_eq!(frozen, Some(Dur::from_nanos(30)));

    let fresh = Epoch::from(Dur::from_secs(9));
    c.reset_at(fresh, Dur::from_nanos(70));
    assert!(c.is_ticking());
    assert_eq!(c.epoch(), fresh);
    assert_eq!(c.now_at(Dur::from_nanos(70)), Dur::zero());
    assert_eq!(c.now_at(Dur::from_nanos(75)), Dur::from_nanos(5));
}

#[test]
fn stopwatch_resume_before_stop_reading() {
    let mut c = InnerClock::new();
    c.start_at(Dur::from_nanos(5));
    c.stop_at(Dur::from_nanos(9));
    // A reading earlier than the recorded stop cannot measure the pause.
    assert_eq!(c.resume_at(Dur::from_nanos(8)), None);
    assert!(c.is_ticking());
}
