use start_page::key::{key_to_intent, Key, Modifiers};
use start_page::state::Intent;

#[test]
fn table() {
    let cases: &[(Key, Modifiers, Option<Intent>)] = &[
        (Key::Char('a'), Modifiers::none(), Some(Intent::Char('a'))),
        (Key::Char('c'), Modifiers::ctrl_only(), Some(Intent::Quit)),
        (Key::Backspace, Modifiers::none(), Some(Intent::Backspace)),
        (Key::Enter, Modifiers::none(), Some(Intent::Activate)),
        (Key::Enter, Modifiers::ctrl_only(), Some(Intent::ForceSearch)),
        (Key::Tab, Modifiers::none(), Some(Intent::AcceptSuggestion)),
        (Key::Tab, Modifiers::shift_only(), Some(Intent::Prev)),
        (Key::Up, Modifiers::none(), Some(Intent::Prev)),
        (Key::Down, Modifiers::none(), Some(Intent::Next)),
        (Key::Esc, Modifiers::none(), Some(Intent::Quit)),
    ];

    for (key, modifiers, expected) in cases {
        assert_eq!(
            key_to_intent(*key, *modifiers),
            *expected,
            "key {key:?} modifiers {modifiers:?}"
        );
    }
}

#[test]
fn q_is_typed_not_quit() {
    assert_eq!(key_to_intent(Key::Char('q'), Modifiers::none()), Some(Intent::Char('q')));
    assert_eq!(key_to_intent(Key::Char('C'), Modifiers::ctrl_only()), Some(Intent::Char('C')));
}

#[test]
fn alt_changes_nothing() {
    let alt = Modifiers { ctrl: false, alt: true, shift: false };
    assert_eq!(key_to_intent(Key::Enter, alt), Some(Intent::Activate));
    assert_eq!(key_to_intent(Key::Char('x'), alt), Some(Intent::Char('x')));
    assert_eq!(Modifiers::default(), Modifiers::none());
}
