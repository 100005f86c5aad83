//! Platform-independent key events and the table that maps keys to them.

use vstd::prelude::*;

verus! {

/// A decoded key event, platform-agnostic.
#[derive(Clone, Copy, Debug, PartialEq, Eq, Structural)]
pub enum KeyEvent {
    Char(char),
    Click,
    DoubleClick,
    RightClick,
    Close,
    Back,
    Undo,
    MacroMenu,
    MacroRecord,
    ScrollUp,
    ScrollDown,
    ScrollLeft,
    ScrollRight,
}

/// A key as the keymap reports it: one that types a character, or another
/// key identified by its key code.
#[derive(Clone, Copy, Debug, PartialEq, Eq, Structural)]
pub enum Key {
    Char(char),
    Code(u32),
}

/// The configured key bindings: each entry binds a key to an event; when a
/// key occurs in several entries, the first one counts.
pub struct KeyBindings {
    pub bindings: Vec<(Key, KeyEvent)>,
}

/// The event that the first binding of `key` in `bindings` names, if any.
pub open spec fn bound_event(bindings: Seq<(Key, KeyEvent)>, key: Key) -> Option<KeyEvent> {
    match bindings.map_values(|b: (Key, KeyEvent)| b.0).index_of_first(key) {
        Some(i) => Some(bindings[i].1),
        None => None,
    }
}

/// The event a key produces: its binding if it has one, otherwise the
/// character it types, otherwise none.
pub open spec fn key_event_of(bindings: Seq<(Key, KeyEvent)>, key: Key) -> Option<KeyEvent> {
    match bound_event(bindings, key) {
        Some(e) => Some(e),
        None => match key {
            Key::Char(c) => Some(KeyEvent::Char(c)),
            Key::Code(_) => None,
        },
    }
}

/// The events that keep repeating while their key is held.
pub open spec fn is_repeatable(event: KeyEvent) -> bool {
    event is ScrollUp || event is ScrollDown || event is ScrollLeft || event is ScrollRight
}

impl KeyBindings {
    /// The event bound to `key`: the first binding of that key.
    pub fn to_event(&self, key: Key) -> (r: Option<KeyEvent>)
        ensures
            r == bound_event(self.bindings@, key),
    {
        let ghost keys = self.bindings@.map_values(|b: (Key, KeyEvent)| b.0);
        let mut i: usize = 0;
        while i < self.bindings.len()
            invariant
                0 <= i <= self.bindings.len(),
                keys == self.bindings@.map_values(|b: (Key, KeyEvent)| b.0),
                forall|j: int| 0 <= j < i ==> keys[j] != key,
            decreases self.bindings.len() - i,
        {
            if self.bindings[i].0 == key {
                proof {
                    keys.index_of_first_ensures(key);
                    assert(keys[i as int] == key);
                }
                return Some(self.bindings[i].1);
            }
            i = i + 1;
        }
        proof {
            keys.index_of_first_ensures(key);
        }
        None
    }
}

/// Maps a key to its event: a configured binding wins, and an unbound key
/// that types a character produces that character.
pub fn key_to_event(bindings: &KeyBindings, key: Key) -> (r: Option<KeyEvent>)
    ensures
        r == key_event_of(bindings.bindings@, key),
{
    match bindings.to_event(key) {
        Some(e) => Some(e),
        None => match key {
            Key::Char(c) => Some(KeyEvent::Char(c)),
            Key::Code(_) => None,
        },
    }
}

/// Whether holding the key of `event` repeats it: true exactly for the four
/// scroll events.
pub fn is_repeatable_key_event(event: KeyEvent) -> (r: bool)
    ensures
        r == is_repeatable(event),
{
    match event {
        KeyEvent::ScrollUp | KeyEvent::ScrollDown | KeyEvent::ScrollLeft | KeyEvent::ScrollRight => true,
        _ => false,
    }
}

/// The first binding of a key decides its event, later bindings of the same
/// key do not count, and an unbound key types its character if it has one
/// and produces nothing otherwise.
pub proof fn lemma_first_binding_decides(bindings: Seq<(Key, KeyEvent)>, key: Key, i: int)
    ensures
        0 <= i < bindings.len() && bindings[i].0 == key && (forall|j: int| 0 <= j < i ==> bindings[j].0 != key)
            ==> key_event_of(bindings, key) == Some(bindings[i].1),
        (forall|j: int| 0 <= j < bindings.len() ==> bindings[j].0 != key) ==> key_event_of(bindings, key) == match key {
            Key::Char(c) => Some(KeyEvent::Char(c)),
            Key::Code(_) => None::<KeyEvent>,
        },
{
    let keys = bindings.map_values(|b: (Key, KeyEvent)| b.0);
    keys.index_of_first_ensures(key);
    if 0 <= i < bindings.len() {
        assert(keys[i] == bindings[i].0);
    }
    if keys.contains(key) {
        let w = choose|w: int| 0 <= w < keys.len() && keys[w] == key;
        assert(bindings[w].0 == key);
    }
}

} // verus!
