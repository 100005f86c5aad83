use stochos::backend::KeyEvent;
use stochos::scroll::{ScrollRepeat, ScrollSettings};

const MS: u128 = 1_000_000;

fn repeat() -> ScrollRepeat {
    ScrollRepeat::from_config(&ScrollSettings { repeat_delay_ms: 200, repeat_rate: 30, repeat_burst_ms: 1000 })
}

#[test]
fn scroll_key_repeats_after_delay_until_burst_ends() {
    let mut r = repeat();
    r.schedule(116, KeyEvent::ScrollDown, 0);
    assert!(r.is_same_key(116, KeyEvent::ScrollDown));
    assert!(!r.is_same_key(116, KeyEvent::ScrollUp));
    assert_eq!(r.timeout(0), Some(200 * MS));
    assert_eq!(r.take_due(100 * MS, 33 * MS), None);
    assert_eq!(r.repeat_count(), Some(0));
    assert_eq!(r.take_due(200 * MS, 33 * MS), Some(KeyEvent::ScrollDown));
    assert_eq!(r.repeat_count(), Some(1));
    assert_eq!(r.timeout(200 * MS), Some(33 * MS));
    assert_eq!(r.elapsed(250 * MS), Some(250 * MS));
    // Not again at the same moment.
    assert_eq!(r.take_due(200 * MS, 33 * MS), None);
    assert_eq!(r.repeat_count(), Some(1));
    assert_eq!(r.take_due(233 * MS, 33 * MS), Some(KeyEvent::ScrollDown));
    assert_eq!(r.repeat_count(), Some(2));
    // A new press starts counting afresh.
    let mut fresh = r;
    fresh.schedule(116, KeyEvent::ScrollDown, 240 * MS);
    assert_eq!(fresh.repeat_count(), Some(0));
    // Past the burst: nothing, and the repeat ends.
    assert_eq!(r.take_due(1000 * MS, 33 * MS), None);
    assert_eq!(r.timeout(1000 * MS), None);
    assert_eq!(r.repeat_count(), None);
    assert!(!r.is_same_key(116, KeyEvent::ScrollDown));
}

#[test]
fn overdue_timeout_is_zero() {
    let mut r = repeat();
    r.schedule(116, KeyEvent::ScrollDown, 0);
    assert_eq!(r.timeout(500 * MS), Some(0));
    assert_eq!(r.elapsed(0), Some(0));
}

#[test]
fn release_stops_only_the_held_key() {
    let mut r = repeat();
    r.schedule(116, KeyEvent::ScrollDown, 0);
    r.clear(117);
    assert!(r.is_same_key(116, KeyEvent::ScrollDown));
    r.clear(116);
    assert_eq!(r.timeout(0), None);
    assert_eq!(r.take_due(300 * MS, MS), None);
}

#[test]
fn other_events_and_zero_rate_do_not_repeat() {
    let mut r = repeat();
    r.schedule(116, KeyEvent::ScrollDown, 0);
    r.schedule(30, KeyEvent::Click, 0);
    assert_eq!(r.timeout(0), None);
    let mut r = repeat();
    r.update_rate(0);
    r.schedule(116, KeyEvent::ScrollUp, 0);
    assert_eq!(r.timeout(0), None);
    assert_eq!(r.elapsed(0), None);
}

#[test]
fn updated_delay_applies_to_next_press() {
    let mut r = repeat();
    r.update_delay(50);
    r.schedule(116, KeyEvent::ScrollLeft, 10 * MS);
    assert_eq!(r.timeout(10 * MS), Some(50 * MS));
}
