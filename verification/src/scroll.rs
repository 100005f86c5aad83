//! Key repeat for scrolling: while a scroll key is held, its event is
//! repeated after an initial delay, for at most a burst period.
//!
//! Times are nanoseconds on a monotonic clock whose origin the caller picks;
//! durations are nanoseconds too. The interval between repeats follows an
//! acceleration curve that the caller computes (see [`ScrollRepeat::take_due`]).

use vstd::prelude::*;

use crate::backend::{is_repeatable, is_repeatable_key_event, KeyEvent};

verus! {

/// Nanoseconds in a millisecond.
pub const NANOS_PER_MILLI: u128 = 1_000_000u128;

/// The key-repeat settings for scrolling.
#[derive(Clone, Copy, Debug)]
pub struct ScrollSettings {
    /// Delay before the first repeat.
    pub repeat_delay_ms: u64,
    /// Target repeats per second; 0 disables repeat.
    pub repeat_rate: u32,
    /// How long after the press repeating may go on.
    pub repeat_burst_ms: u64,
}

/// A repeat in progress.
#[derive(Clone, Copy, Debug)]
pub struct ScrollRepeatState {
    pub keycode: u32,
    pub event: KeyEvent,
    /// When the event is next due.
    pub next_at: u128,
    /// When repeating stops.
    pub stop_at: u128,
    /// When the key was pressed.
    pub started_at: u128,
    /// How many repeats have been delivered.
    pub repeat_count: u32,
}

/// Key-repeat state for scroll keys.
#[derive(Clone, Copy, Debug)]
pub struct ScrollRepeat {
    active: Option<ScrollRepeatState>,
    delay: u128,
    rate: u32,
    burst: u128,
}

/// The repeat state and its settings.
pub struct ScrollRepeatModel {
    pub active: Option<ScrollRepeatState>,
    pub delay: u128,
    pub rate: u32,
    pub burst: u128,
}

impl View for ScrollRepeat {
    type V = ScrollRepeatModel;

    closed spec fn view(&self) -> ScrollRepeatModel {
        ScrollRepeatModel { active: self.active, delay: self.delay, rate: self.rate, burst: self.burst }
    }
}

/// The state after pressing `keycode`, which produced `event`, at time `now`:
/// a repeatable event starts repeating (first due after the delay, stopping
/// after the burst) unless the rate is zero; anything else stops repeating.
pub open spec fn scheduled(m: ScrollRepeatModel, keycode: u32, event: KeyEvent, now: u128) -> ScrollRepeatModel {
    if !is_repeatable(event) || m.rate == 0 {
        ScrollRepeatModel { active: None, ..m }
    } else {
        ScrollRepeatModel {
            active: Some(ScrollRepeatState {
                keycode,
                event,
                next_at: (now + m.delay) as u128,
                stop_at: (now + m.burst) as u128,
                started_at: now,
                repeat_count: 0,
            }),
            ..m
        }
    }
}

/// The state after releasing `keycode`: the repeat stops if it is this key's.
pub open spec fn cleared(m: ScrollRepeatModel, keycode: u32) -> ScrollRepeatModel {
    match m.active {
        Some(a) => if a.keycode == keycode {
            ScrollRepeatModel { active: None, ..m }
        } else {
            m
        },
        None => m,
    }
}

/// The state after asking at time `now` for a due repeat, and the event that
/// is due: none when nothing repeats; none, and the repeat stopped, once the
/// stop time is reached; none before the due time; otherwise the event, with
/// the next one due `interval` later and one more repeat counted.
pub open spec fn due_step(m: ScrollRepeatModel, now: u128, interval: u128) -> (ScrollRepeatModel, Option<KeyEvent>) {
    match m.active {
        None => (m, None),
        Some(a) => if now >= a.stop_at {
            (ScrollRepeatModel { active: None, ..m }, None)
        } else if now < a.next_at {
            (m, None)
        } else {
            (
                ScrollRepeatModel {
                    active: Some(ScrollRepeatState {
                        next_at: (now + interval) as u128,
                        repeat_count: (a.repeat_count + 1) as u32,
                        ..a
                    }),
                    ..m
                },
                Some(a.event),
            )
        },
    }
}

/// Whether `keycode` is already repeating `event`.
pub open spec fn same_key(m: ScrollRepeatModel, keycode: u32, event: KeyEvent) -> bool {
    m.active matches Some(a) && a.keycode == keycode && a.event == event
}

impl ScrollRepeat {
    /// A repeat state with the given settings and nothing repeating.
    pub fn from_config(config: &ScrollSettings) -> (r: Self)
        ensures
            r@.active is None,
            r@.delay == config.repeat_delay_ms as u128 * NANOS_PER_MILLI,
            r@.rate == config.repeat_rate,
            r@.burst == config.repeat_burst_ms as u128 * NANOS_PER_MILLI,
    {
        ScrollRepeat {
            active: None,
            delay: config.repeat_delay_ms as u128 * NANOS_PER_MILLI,
            rate: config.repeat_rate,
            burst: config.repeat_burst_ms as u128 * NANOS_PER_MILLI,
        }
    }

    /// Sets the delay before the first repeat.
    pub fn update_delay(&mut self, delay_ms: u64)
        ensures
            final(self)@ == (ScrollRepeatModel { delay: (delay_ms as u128 * NANOS_PER_MILLI) as u128, ..old(self)@ }),
    {
        self.delay = delay_ms as u128 * NANOS_PER_MILLI;
    }

    /// Sets the repeat rate.
    pub fn update_rate(&mut self, rate: u32)
        ensures
            final(self)@ == (ScrollRepeatModel { rate, ..old(self)@ }),
    {
        self.rate = rate;
    }

    /// Notes that `keycode` was pressed at `now` and produced `event`.
    pub fn schedule(&mut self, keycode: u32, event: KeyEvent, now: u128)
        requires
            is_repeatable(event) && old(self)@.rate != 0 ==> now + old(self)@.delay <= u128::MAX && now
                + old(self)@.burst <= u128::MAX,
        ensures
            final(self)@ == scheduled(old(self)@, keycode, event, now),
    {
        if !is_repeatable_key_event(event) || self.rate == 0 {
            self.active = None;
            return;
        }
        self.active = Some(ScrollRepeatState {
            keycode,
            event,
            next_at: now + self.delay,
            stop_at: now + self.burst,
            started_at: now,
            repeat_count: 0,
        });
    }

    /// Notes that `keycode` was released.
    pub fn clear(&mut self, keycode: u32)
        ensures
            final(self)@ == cleared(old(self)@, keycode),
    {
        if let Some(a) = self.active {
            if a.keycode == keycode {
                self.active = None;
            }
        }
    }

    /// The repeated event due at `now`, if any. `interval` is the time until
    /// the repeat after this one.
    pub fn take_due(&mut self, now: u128, interval: u128) -> (r: Option<KeyEvent>)
        requires
            ({
                let a = old(self)@.active->Some_0;
                old(self)@.active is Some && now < a.stop_at && a.next_at <= now ==> now + interval <= u128::MAX
                    && a.repeat_count < u32::MAX
            }),
        ensures
            (final(self)@, r) == due_step(old(self)@, now, interval),
    {
        match self.active {
            None => None,
            Some(a) => {
                if now >= a.stop_at {
                    self.active = None;
                    return None;
                }
                if now < a.next_at {
                    return None;
                }
                self.active = Some(ScrollRepeatState { next_at: now + interval, repeat_count: a.repeat_count + 1, ..a });
                Some(a.event)
            },
        }
    }

    /// How long from `now` until the next repeat is due (zero when it is
    /// already due), or `None` when nothing repeats.
    pub fn timeout(&self, now: u128) -> (r: Option<u128>)
        ensures
            match self@.active {
                Some(a) => r == Some(if a.next_at > now { (a.next_at - now) as u128 } else { 0u128 }),
                None => r is None,
            },
    {
        match self.active {
            Some(a) => Some(a.next_at.saturating_sub(now)),
            None => None,
        }
    }

    /// How long the repeating key has been held at `now` (zero if `now` is
    /// before the press), or `None` when nothing repeats.
    pub fn elapsed(&self, now: u128) -> (r: Option<u128>)
        ensures
            match self@.active {
                Some(a) => r == Some(if now > a.started_at { (now - a.started_at) as u128 } else { 0u128 }),
                None => r is None,
            },
    {
        match self.active {
            Some(a) => Some(now.saturating_sub(a.started_at)),
            None => None,
        }
    }

    /// How many repeats of the held key have been delivered, or `None` when
    /// nothing repeats.
    pub fn repeat_count(&self) -> (r: Option<u32>)
        ensures
            match self@.active {
                Some(a) => r == Some(a.repeat_count),
                None => r is None,
            },
    {
        match self.active {
            Some(a) => Some(a.repeat_count),
            None => None,
        }
    }

    /// Whether `keycode` is already repeating `event`.
    pub fn is_same_key(&self, keycode: u32, event: KeyEvent) -> (r: bool)
        ensures
            r == same_key(self@, keycode, event),
    {
        match self.active {
            Some(a) => a.keycode == keycode && a.event == event,
            None => false,
        }
    }
}

/// Pressing a key that repeats schedules it: afterwards the key counts as
/// repeating its event, and releasing it stops the repeat.
pub proof fn lemma_schedule_then_release(m: ScrollRepeatModel, keycode: u32, event: KeyEvent, now: u128)
    requires
        is_repeatable(event),
        m.rate != 0,
    ensures
        same_key(scheduled(m, keycode, event, now), keycode, event),
        cleared(scheduled(m, keycode, event, now), keycode).active is None,
{
}

/// Only scroll events repeat, and a zero rate disables repeat altogether.
pub proof fn lemma_only_scrolls_repeat(m: ScrollRepeatModel, keycode: u32, event: KeyEvent, now: u128)
    requires
        !is_repeatable(event) || m.rate == 0,
    ensures
        scheduled(m, keycode, event, now).active is None,
{
}

/// Releasing another key leaves the repeat alone.
pub proof fn lemma_release_other_key(m: ScrollRepeatModel, keycode: u32)
    requires
        m.active matches Some(a) && a.keycode != keycode,
    ensures
        cleared(m, keycode) == m,
{
}

/// No repeat is delivered at or after the stop time, and asking then ends
/// the repeat.
pub proof fn lemma_no_repeat_after_stop(m: ScrollRepeatModel, now: u128, interval: u128)
    requires
        m.active matches Some(a) && now >= a.stop_at,
    ensures
        due_step(m, now, interval).1 is None,
        due_step(m, now, interval).0.active is None,
{
}

/// A repeat is delivered at most once per due time: asking again at the same
/// moment, with a positive interval, yields nothing.
pub proof fn lemma_due_once(m: ScrollRepeatModel, now: u128, interval: u128)
    requires
        interval > 0,
        now + interval <= u128::MAX,
    ensures
        due_step(due_step(m, now, interval).0, now, interval).1 is None,
{
}

/// A delivered repeat is the event of the held key, the repeat goes on for
/// the same key, event, start and stop time, and it is counted once.
pub proof fn lemma_due_keeps_key(m: ScrollRepeatModel, now: u128, interval: u128)
    requires
        due_step(m, now, interval).1 is Some,
        m.active matches Some(a) ==> a.repeat_count < u32::MAX,
    ensures
        ({
            let a = m.active->Some_0;
            let b = due_step(m, now, interval).0.active->Some_0;
            &&& m.active is Some
            &&& due_step(m, now, interval).1 == Some(a.event)
            &&& due_step(m, now, interval).0.active is Some
            &&& b.keycode == a.keycode && b.event == a.event
            &&& b.stop_at == a.stop_at && b.started_at == a.started_at
            &&& b.repeat_count == a.repeat_count + 1
        }),
{
}

/// Scheduling a repeatable event at `now` with a nonzero rate times the
/// repeat from the press: the first repeat is due `delay` after `now`, and
/// repeating stops `burst` after `now`; the repeat is of this key and event,
/// started at `now`, with none delivered yet.
pub proof fn lemma_schedule_times_from_press(m: ScrollRepeatModel, keycode: u32, event: KeyEvent, now: u128)
    requires
        is_repeatable(event),
        m.rate != 0,
        now + m.delay <= u128::MAX,
        now + m.burst <= u128::MAX,
    ensures
        scheduled(m, keycode, event, now).active is Some,
        scheduled(m, keycode, event, now).active->Some_0.next_at == now + m.delay,
        scheduled(m, keycode, event, now).active->Some_0.stop_at == now + m.burst,
        scheduled(m, keycode, event, now).active->Some_0.started_at == now,
        scheduled(m, keycode, event, now).active->Some_0.keycode == keycode,
        scheduled(m, keycode, event, now).active->Some_0.event == event,
        scheduled(m, keycode, event, now).active->Some_0.repeat_count == 0,
        scheduled(m, keycode, event, now).delay == m.delay,
        scheduled(m, keycode, event, now).rate == m.rate,
        scheduled(m, keycode, event, now).burst == m.burst,
{
}

/// When the delay is shorter than the burst, the first repeat comes out
/// exactly `delay` after the press, whenever the press happened; just
/// before that, nothing comes out.
pub proof fn lemma_first_repeat_after_delay(
    m: ScrollRepeatModel,
    keycode: u32,
    event: KeyEvent,
    now: u128,
    interval: u128,
)
    requires
        is_repeatable(event),
        m.rate != 0,
        m.delay < m.burst,
        now + m.burst <= u128::MAX,
    ensures
        due_step(scheduled(m, keycode, event, now), (now + m.delay) as u128, interval).1 == Some(event),
        m.delay > 0 ==> due_step(scheduled(m, keycode, event, now), (now + m.delay - 1) as u128, interval).1 is None,
{
}

/// Before its due time, and before the stop time, asking for a repeat gives
/// nothing and changes nothing.
pub proof fn lemma_not_due_yet(m: ScrollRepeatModel, now: u128, interval: u128)
    requires
        m.active matches Some(a) && now < a.next_at && now < a.stop_at,
    ensures
        due_step(m, now, interval) == (m, None::<KeyEvent>),
{
}

} // verus!
