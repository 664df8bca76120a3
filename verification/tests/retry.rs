use flixparty::retry::Retry;
use std::time::Duration;
use std::time::SystemTime;

#[test]
fn retry_basic() {
    let mut r = Retry::new(3, Duration::from_secs(3600));

    assert_eq!(r.next(), Some((0, 3))); // first one - taking first time measurement
    assert_eq!(r.next(), Some((1, 2))); // first over threashold
    assert_eq!(r.next(), Some((2, 1))); // second over threashold
    assert_eq!(r.next(), Some((3, 0))); // third over threashold
    assert_eq!(r.next(), None); // fourth over threashold -> exit
}

#[test]
fn retry_reset_by_slow_retry() {
    let mut r = Retry::new(3, Duration::from_millis(10));
    let t = SystemTime::now();
    assert_eq!(r.advance(t, true), Some((0, 3)));
    assert_eq!(r.advance(t, true), Some((1, 2)));
    assert_eq!(r.advance(t, true), Some((2, 1)));
    assert_eq!(r.advance(t, false), Some((3, 2))); // a slow retry gives one back
    assert_eq!(r.advance(t, true), Some((4, 1)));
    assert_eq!(r.advance(t, true), Some((5, 0)));
    assert_eq!(r.advance(t, true), None);
}

#[test]
fn retry_first_is_free_however_fast() {
    let mut r = Retry::new(0, Duration::from_secs(3600));
    assert_eq!(r.next(), Some((0, 0)));
    assert_eq!(r.next(), None);
    assert_eq!(r.next(), None); // refusals persist while retries stay fast
}

#[test]
fn retry_refusal_keeps_index() {
    let mut r = Retry::new(1, Duration::from_secs(3600));
    let t = SystemTime::now();
    assert_eq!(r.advance(t, false), Some((0, 1)));
    assert_eq!(r.advance(t, true), Some((1, 0)));
    assert_eq!(r.advance(t, true), None);
    assert_eq!(r.advance(t, true), None);
    // two slow retries bring the count of fast ones back within the budget
    assert_eq!(r.advance(t, false), None);
    assert_eq!(r.advance(t, false), Some((2, 0)));
}

#[test]
fn retry_slow_retry_without_fast_one_keeps_full_budget() {
    let mut r = Retry::new(3, Duration::from_secs(3600));
    assert!(r.can_step(false));
    assert_eq!(r.advance(SystemTime::now(), false), Some((0, 3)));
    assert!(r.can_step(false));
    assert_eq!(r.advance(SystemTime::now(), false), Some((1, 3)));
    assert_eq!(r.advance(SystemTime::now(), true), Some((2, 2)));
}

#[test]
fn retry_threshold_in_nanoseconds() {
    assert_eq!(Retry::new(3, Duration::from_millis(10)).threshold_nanos(), 10_000_000);
    assert_eq!(Retry::new(5, Duration::from_secs(3)).threshold_nanos(), 3_000_000_000);
    assert_eq!(Retry::with_threshold_nanos(1, 42).threshold_nanos(), 42);
}

#[test]
fn retry_fast_after() {
    assert_eq!(Retry::fast_after(None, 10), None);
    assert_eq!(Retry::fast_after(Some(9), 10), Some(true));
    assert_eq!(Retry::fast_after(Some(10), 10), Some(false));
}

#[test]
fn retry_step_on_measured_times() {
    let t = SystemTime::now();
    let mut r = Retry::with_threshold_nanos(2, 1_000);
    assert_eq!(r.step(Some(0), t), Some((0, 2))); // nothing measured before the first
    assert_eq!(r.step(Some(10), t), Some((1, 1))); // fast
    assert_eq!(r.step(None, t), None); // the clock went backwards: nothing changes
    assert_eq!(r.step(Some(5_000), t), Some((2, 2))); // slow: one given back
    assert_eq!(r.step(Some(999), t), Some((3, 1)));
    assert_eq!(r.step(Some(999), t), Some((4, 0)));
    assert_eq!(r.step(Some(999), t), None);
    assert_eq!(r.step(Some(1_000), t), Some((5, 0)));
}

#[test]
fn retry_first_step_ignores_a_backwards_clock() {
    let mut r = Retry::with_threshold_nanos(1, 1_000);
    assert_eq!(r.step(None, SystemTime::now()), Some((0, 1)));
}
