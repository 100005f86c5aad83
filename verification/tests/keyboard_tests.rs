use stochos::backend::{Key, KeyBindings, KeyEvent};
use stochos::keyboard::{evdev_keycode, is_shift_keycode, KeyboardState};
use stochos::scroll::ScrollSettings;

const MS: u128 = 1_000_000;

fn settings() -> ScrollSettings {
    ScrollSettings { repeat_delay_ms: 200, repeat_rate: 30, repeat_burst_ms: 1000 }
}

fn bindings() -> KeyBindings {
    KeyBindings { bindings: vec![(Key::Code(1), KeyEvent::Close), (Key::Code(108), KeyEvent::ScrollDown)] }
}

#[test]
fn x11_keycodes_are_evdev_plus_eight() {
    assert_eq!(evdev_keycode(38), 30);
    assert_eq!(evdev_keycode(8), 0);
    assert_eq!(evdev_keycode(0), u32::MAX - 7);
    assert!(is_shift_keycode(50) && is_shift_keycode(62) && !is_shift_keycode(38));
}

#[test]
fn pressed_key_is_delivered_once() {
    let mut k = KeyboardState::new(settings());
    k.press(38, Some(Key::Char('a')), Some(Key::Char('A')), &bindings(), 0);
    assert_eq!(k.next_ready(0, MS), Some(KeyEvent::Char('a')));
    assert_eq!(k.next_ready(0, MS), None);
}

#[test]
fn shift_selects_the_shifted_key() {
    let mut k = KeyboardState::new(settings());
    k.press(50, None, None, &bindings(), 0);
    assert!(k.shift_held());
    k.press(38, Some(Key::Char('a')), Some(Key::Char('A')), &bindings(), 0);
    assert_eq!(k.next_ready(0, MS), Some(KeyEvent::Char('A')));
    k.release(50);
    assert!(!k.shift_held());
}

#[test]
fn unbound_key_closes() {
    let mut k = KeyboardState::new(settings());
    k.press(116, Some(Key::Code(108)), Some(Key::Code(108)), &bindings(), 0);
    assert_eq!(k.next_ready(0, MS), Some(KeyEvent::ScrollDown));
    k.press(42, Some(Key::Code(34)), Some(Key::Code(34)), &bindings(), 0);
    assert_eq!(k.next_ready(0, MS), Some(KeyEvent::Close));
    assert_eq!(k.repeat_timeout(0), None);
}

#[test]
fn held_scroll_key_repeats_without_duplicates() {
    let mut k = KeyboardState::new(settings());
    k.press(116, Some(Key::Code(108)), Some(Key::Code(108)), &bindings(), 0);
    assert_eq!(k.next_ready(0, MS), Some(KeyEvent::ScrollDown));
    // The server's own auto-repeat sends the press again: nothing new queued.
    k.press(116, Some(Key::Code(108)), Some(Key::Code(108)), &bindings(), 50 * MS);
    assert_eq!(k.next_ready(50 * MS, MS), None);
    assert_eq!(k.repeat_timeout(50 * MS), Some(200 * MS));
    assert_eq!(k.repeat_elapsed(60 * MS), Some(10 * MS));
    // The repeated press rescheduled the repeat for 250 ms; waits are capped
    // at 10 ms, and shrink as the repeat comes due.
    assert_eq!(k.repeat_wait(50 * MS), Some(10 * MS));
    assert_eq!(k.repeat_wait(245 * MS), Some(5 * MS));
    assert_eq!(k.repeat_wait(300 * MS), Some(0));
    assert_eq!(k.repeat_count(), Some(0));
    assert_eq!(k.next_ready(250 * MS, 33 * MS), Some(KeyEvent::ScrollDown));
    assert_eq!(k.repeat_count(), Some(1));
    k.release(116);
    assert_eq!(k.repeat_wait(400 * MS), None);
    assert_eq!(k.next_ready(400 * MS, 33 * MS), None);
}
