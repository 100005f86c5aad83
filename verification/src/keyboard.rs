//! Keyboard event decisions of the X11 overlay: which event a key press
//! queues, how shift is tracked, and when a held scroll key repeats.
//!
//! The caller reads events from the X server, looks up the key that a
//! keycode stands for in the keymap, and hands both to this state; it asks
//! [`KeyboardState::next_ready`] for the next event to deliver.

use vstd::prelude::*;

use crate::backend::{key_event_of, key_to_event, Key, KeyBindings, KeyEvent};
use crate::scroll::{
    cleared, due_step, same_key, scheduled, ScrollRepeat, ScrollRepeatModel, ScrollSettings, NANOS_PER_MILLI,
};

verus! {

/// The longest wait for the next event while a key repeats, in nanoseconds.
pub const MAX_REPEAT_WAIT: u128 = 10_000_000u128;

/// X11 keycode of the left shift key.
pub const SHIFT_LEFT_KEYCODE: u8 = 50;

/// X11 keycode of the right shift key.
pub const SHIFT_RIGHT_KEYCODE: u8 = 62;

/// The keyboard state of the overlay.
pub struct KeyboardState {
    shift_held: bool,
    pending_key: Option<KeyEvent>,
    scroll_repeat: ScrollRepeat,
    settings: ScrollSettings,
}

pub struct KeyboardModel {
    pub shift_held: bool,
    pub pending_key: Option<KeyEvent>,
    pub repeat: ScrollRepeatModel,
    pub settings: ScrollSettings,
}

impl View for KeyboardState {
    type V = KeyboardModel;

    closed spec fn view(&self) -> KeyboardModel {
        KeyboardModel {
            shift_held: self.shift_held,
            pending_key: self.pending_key,
            repeat: self.scroll_repeat@,
            settings: self.settings,
        }
    }
}

/// A repeat state with the given settings and nothing repeating.
pub open spec fn fresh_repeat(s: ScrollSettings) -> ScrollRepeatModel {
    ScrollRepeatModel {
        active: None,
        delay: (s.repeat_delay_ms as u128 * NANOS_PER_MILLI) as u128,
        rate: s.repeat_rate,
        burst: (s.repeat_burst_ms as u128 * NANOS_PER_MILLI) as u128,
    }
}

pub open spec fn is_shift(keycode: u8) -> bool {
    keycode == SHIFT_LEFT_KEYCODE || keycode == SHIFT_RIGHT_KEYCODE
}

/// The evdev code of an X11 keycode: X11 keycodes are evdev codes plus 8
/// (the subtraction wraps for keycodes below 8).
pub open spec fn evdev_code(keycode: u8) -> u32 {
    if keycode >= 8 {
        (keycode - 8) as u32
    } else {
        (keycode as int + 0x1_0000_0000 - 8) as u32
    }
}

/// The state after the press of `keycode` at `now`, where `plain` and
/// `shifted` are the keys the keymap gives for it without and with shift.
///
/// Shift keys set the shift flag before the key is looked up. A key that
/// produces an event queues it (unless the same key is already repeating that
/// event, so that auto-repeated presses do not queue it twice) and schedules
/// its repeat; a key that produces no event queues `Close` and stops any
/// repeat; a keycode without a key changes nothing else.
pub open spec fn pressed(
    m: KeyboardModel,
    keycode: u8,
    plain: Option<Key>,
    shifted: Option<Key>,
    bindings: Seq<(Key, KeyEvent)>,
    now: u128,
) -> KeyboardModel {
    let shift = m.shift_held || is_shift(keycode);
    let key = if shift { shifted } else { plain };
    let m1 = KeyboardModel { shift_held: shift, ..m };
    match key {
        None => m1,
        Some(k) => match key_event_of(bindings, k) {
            Some(e) => KeyboardModel {
                pending_key: if same_key(m.repeat, keycode as u32, e) { m.pending_key } else { Some(e) },
                repeat: scheduled(m.repeat, keycode as u32, e, now),
                ..m1
            },
            None => KeyboardModel { pending_key: Some(KeyEvent::Close), repeat: fresh_repeat(m.settings), ..m1 },
        },
    }
}

/// The state after the release of `keycode`: releasing shift clears the
/// shift flag, and the key's repeat stops.
pub open spec fn released(m: KeyboardModel, keycode: u8) -> KeyboardModel {
    KeyboardModel {
        shift_held: if is_shift(keycode) { false } else { m.shift_held },
        repeat: cleared(m.repeat, keycode as u32),
        ..m
    }
}

/// The state after asking for the next event at `now`, and that event: a
/// queued event comes first; otherwise a due repeat, if any.
pub open spec fn next_event(m: KeyboardModel, now: u128, interval: u128) -> (KeyboardModel, Option<KeyEvent>) {
    match m.pending_key {
        Some(e) => (KeyboardModel { pending_key: None, ..m }, Some(e)),
        None => {
            let (r, e) = due_step(m.repeat, now, interval);
            (KeyboardModel { repeat: r, ..m }, e)
        },
    }
}

/// Whether `keycode` is a shift key.
pub fn is_shift_keycode(keycode: u8) -> (r: bool)
    ensures
        r == is_shift(keycode),
{
    keycode == SHIFT_LEFT_KEYCODE || keycode == SHIFT_RIGHT_KEYCODE
}

/// The evdev code of an X11 keycode.
pub fn evdev_keycode(keycode: u8) -> (r: u32)
    ensures
        r == evdev_code(keycode),
{
    if keycode >= 8 {
        (keycode - 8) as u32
    } else {
        (keycode as u32) + 0xFFFF_FFF8u32
    }
}

impl KeyboardState {
    /// No key held, nothing queued, nothing repeating.
    pub fn new(settings: ScrollSettings) -> (r: Self)
        ensures
            r@ == (KeyboardModel { shift_held: false, pending_key: None, repeat: fresh_repeat(settings), settings }),
    {
        KeyboardState {
            shift_held: false,
            pending_key: None,
            scroll_repeat: ScrollRepeat::from_config(&settings),
            settings,
        }
    }

    /// Whether shift is held.
    pub fn shift_held(&self) -> (r: bool)
        ensures
            r == self@.shift_held,
    {
        self.shift_held
    }

    /// Handles the press of `keycode` at `now`; `plain` and `shifted` are the
    /// keys the keymap gives for its evdev code without and with shift.
    pub fn press(
        &mut self,
        keycode: u8,
        plain: Option<Key>,
        shifted: Option<Key>,
        bindings: &KeyBindings,
        now: u128,
    )
        requires
            now + old(self)@.repeat.delay <= u128::MAX,
            now + old(self)@.repeat.burst <= u128::MAX,
        ensures
            final(self)@ == pressed(old(self)@, keycode, plain, shifted, bindings.bindings@, now),
    {
        if is_shift_keycode(keycode) {
            self.shift_held = true;
        }
        let key = if self.shift_held { shifted } else { plain };
        if let Some(k) = key {
            match key_to_event(bindings, k) {
                Some(event) => {
                    let repeating_same_key = self.scroll_repeat.is_same_key(keycode as u32, event);
                    if !repeating_same_key {
                        self.pending_key = Some(event);
                    }
                    self.scroll_repeat.schedule(keycode as u32, event, now);
                },
                None => {
                    self.pending_key = Some(KeyEvent::Close);
                    self.scroll_repeat = ScrollRepeat::from_config(&self.settings);
                },
            }
        }
    }

    /// Handles the release of `keycode`.
    pub fn release(&mut self, keycode: u8)
        ensures
            final(self)@ == released(old(self)@, keycode),
    {
        if is_shift_keycode(keycode) {
            self.shift_held = false;
        }
        self.scroll_repeat.clear(keycode as u32);
    }

    /// The next event to deliver at `now`, if one is ready. `interval` is
    /// the time from `now` until the repeat after a repeat delivered now.
    pub fn next_ready(&mut self, now: u128, interval: u128) -> (r: Option<KeyEvent>)
        requires
            now + interval <= u128::MAX,
            ({
                let a = old(self)@.repeat.active->Some_0;
                old(self)@.pending_key is None && old(self)@.repeat.active is Some && now < a.stop_at && a.next_at
                    <= now ==> a.repeat_count < u32::MAX
            }),
        ensures
            (final(self)@, r) == next_event(old(self)@, now, interval),
    {
        if let Some(e) = self.pending_key.take() {
            return Some(e);
        }
        self.scroll_repeat.take_due(now, interval)
    }

    /// How long from `now` until the next repeat is due, or `None` when
    /// nothing repeats.
    pub fn repeat_timeout(&self, now: u128) -> (r: Option<u128>)
        ensures
            match self@.repeat.active {
                Some(a) => r == Some(if a.next_at > now { (a.next_at - now) as u128 } else { 0u128 }),
                None => r is None,
            },
    {
        self.scroll_repeat.timeout(now)
    }

    /// How long to wait at `now` before looking again for an event while a
    /// key repeats: until the next repeat is due, but no longer than
    /// [`MAX_REPEAT_WAIT`]; `None` when nothing repeats (wait for the next
    /// event instead).
    pub fn repeat_wait(&self, now: u128) -> (r: Option<u128>)
        ensures
            match self@.repeat.active {
                Some(a) => r == Some({
                    let t = if a.next_at > now { (a.next_at - now) as u128 } else { 0u128 };
                    if t < MAX_REPEAT_WAIT { t } else { MAX_REPEAT_WAIT }
                }),
                None => r is None,
            },
    {
        match self.scroll_repeat.timeout(now) {
            Some(t) => Some(if t < MAX_REPEAT_WAIT { t } else { MAX_REPEAT_WAIT }),
            None => None,
        }
    }

    /// How many repeats of the held key have been delivered, or `None` when
    /// nothing repeats.
    pub fn repeat_count(&self) -> (r: Option<u32>)
        ensures
            match self@.repeat.active {
                Some(a) => r == Some(a.repeat_count),
                None => r is None,
            },
    {
        self.scroll_repeat.repeat_count()
    }

    /// How long the repeating key has been held at `now`, or `None` when
    /// nothing repeats.
    pub fn repeat_elapsed(&self, now: u128) -> (r: Option<u128>)
        ensures
            match self@.repeat.active {
                Some(a) => r == Some(if now > a.started_at { (now - a.started_at) as u128 } else { 0u128 }),
                None => r is None,
            },
    {
        self.scroll_repeat.elapsed(now)
    }
}

/// A key that the keymap knows but that produces no event closes the
/// overlay: `Close` is queued and any repeat stops.
pub proof fn lemma_unbound_key_closes(
    m: KeyboardModel,
    keycode: u8,
    plain: Option<Key>,
    shifted: Option<Key>,
    bindings: Seq<(Key, KeyEvent)>,
    now: u128,
)
    requires
        ({
            let key = if m.shift_held || is_shift(keycode) { shifted } else { plain };
            key is Some && key_event_of(bindings, key->Some_0) is None
        }),
    ensures
        pressed(m, keycode, plain, shifted, bindings, now).pending_key == Some(KeyEvent::Close),
        pressed(m, keycode, plain, shifted, bindings, now).repeat.active is None,
{
}

/// A queued event is delivered before any repeat, and only once.
pub proof fn lemma_pending_first(m: KeyboardModel, now: u128, interval: u128)
    requires
        m.pending_key is Some,
    ensures
        next_event(m, now, interval).1 == m.pending_key,
        next_event(m, now, interval).0.pending_key is None,
        next_event(m, now, interval).0.repeat == m.repeat,
{
}

/// While a scroll key repeats, the auto-repeated presses of that key queue
/// nothing new: the repeat alone delivers the event.
pub proof fn lemma_held_key_not_queued_twice(
    m: KeyboardModel,
    keycode: u8,
    plain: Option<Key>,
    shifted: Option<Key>,
    bindings: Seq<(Key, KeyEvent)>,
    now: u128,
)
    requires
        ({
            let key = if m.shift_held || is_shift(keycode) { shifted } else { plain };
            &&& key is Some
            &&& key_event_of(bindings, key->Some_0) is Some
            &&& same_key(m.repeat, keycode as u32, key_event_of(bindings, key->Some_0)->Some_0)
        }),
    ensures
        pressed(m, keycode, plain, shifted, bindings, now).pending_key == m.pending_key,
{
}

/// Shift is held from the press of a shift key until its release.
pub proof fn lemma_shift_press_release(
    m: KeyboardModel,
    keycode: u8,
    plain: Option<Key>,
    shifted: Option<Key>,
    bindings: Seq<(Key, KeyEvent)>,
    now: u128,
)
    requires
        is_shift(keycode),
    ensures
        pressed(m, keycode, plain, shifted, bindings, now).shift_held,
        !released(pressed(m, keycode, plain, shifted, bindings, now), keycode).shift_held,
{
}

/// A press of a keycode for which the keymap has no key (under the current
/// shift state), such as a shift key itself, queues nothing and leaves any
/// repeat alone; only the shift flag may change.
pub proof fn lemma_keyless_press_queues_nothing(
    m: KeyboardModel,
    keycode: u8,
    plain: Option<Key>,
    shifted: Option<Key>,
    bindings: Seq<(Key, KeyEvent)>,
    now: u128,
)
    requires
        (if m.shift_held || is_shift(keycode) { shifted } else { plain }) is None,
    ensures
        pressed(m, keycode, plain, shifted, bindings, now).pending_key == m.pending_key,
        pressed(m, keycode, plain, shifted, bindings, now).repeat == m.repeat,
        pressed(m, keycode, plain, shifted, bindings, now).settings == m.settings,
        pressed(m, keycode, plain, shifted, bindings, now).shift_held == (m.shift_held || is_shift(keycode)),
{
}

/// Pressing shift alone never queues an event, whatever the keymap gives.
pub proof fn lemma_shift_alone_queues_nothing(
    m: KeyboardModel,
    keycode: u8,
    bindings: Seq<(Key, KeyEvent)>,
    now: u128,
)
    requires
        is_shift(keycode),
    ensures
        pressed(m, keycode, None, None, bindings, now).pending_key == m.pending_key,
        next_event(pressed(m, keycode, None, None, bindings, now), now, 0).1 == next_event(m, now, 0).1,
{
}

} // verus!
