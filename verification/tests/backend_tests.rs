use stochos::backend::{is_repeatable_key_event, key_to_event, Key, KeyBindings, KeyEvent};

fn bindings() -> KeyBindings {
    KeyBindings {
        bindings: vec![
            (Key::Code(1), KeyEvent::Close),
            (Key::Char('x'), KeyEvent::Click),
            (Key::Char('x'), KeyEvent::Back),
            (Key::Code(103), KeyEvent::ScrollUp),
        ],
    }
}

#[test]
fn bound_key_gives_its_first_binding() {
    assert_eq!(key_to_event(&bindings(), Key::Char('x')), Some(KeyEvent::Click));
    assert_eq!(key_to_event(&bindings(), Key::Code(1)), Some(KeyEvent::Close));
    assert_eq!(key_to_event(&bindings(), Key::Code(103)), Some(KeyEvent::ScrollUp));
}

#[test]
fn unbound_character_key_types_its_character() {
    assert_eq!(key_to_event(&bindings(), Key::Char('a')), Some(KeyEvent::Char('a')));
}

#[test]
fn unbound_code_key_gives_nothing() {
    assert_eq!(key_to_event(&bindings(), Key::Code(2)), None);
    let empty = KeyBindings { bindings: vec![] };
    assert_eq!(key_to_event(&empty, Key::Code(1)), None);
    assert_eq!(bindings().to_event(Key::Char('a')), None);
}

#[test]
fn only_scroll_events_repeat() {
    for e in [KeyEvent::ScrollUp, KeyEvent::ScrollDown, KeyEvent::ScrollLeft, KeyEvent::ScrollRight] {
        assert!(is_repeatable_key_event(e));
    }
    for e in [
        KeyEvent::Char('a'),
        KeyEvent::Click,
        KeyEvent::DoubleClick,
        KeyEvent::RightClick,
        KeyEvent::Close,
        KeyEvent::Back,
        KeyEvent::Undo,
        KeyEvent::MacroMenu,
        KeyEvent::MacroRecord,
    ] {
        assert!(!is_repeatable_key_event(e));
    }
}
