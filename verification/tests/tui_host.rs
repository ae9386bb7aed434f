use start_page::key::{key_to_intent, Key};
use start_page::state::{AppState, Intent};
use start_page::tui_host::{handle_key_event, map_key, TermKeyCode, TermKeyEvent, TermKeyKind, TermModifiers};

const NONE: TermModifiers = TermModifiers { bits: 0 };
const CONTROL: TermModifiers = TermModifiers { bits: 0b10 };

#[test]
fn maps_backtab_to_shift_tab() {
    let (key, modifiers) = map_key(TermKeyCode::BackTab, NONE).unwrap();
    assert_eq!(key, Key::Tab);
    assert!(modifiers.shift);
}

#[test]
fn maps_ctrl_c_quit() {
    let (key, modifiers) = map_key(TermKeyCode::Char('c'), CONTROL).unwrap();
    assert_eq!(key_to_intent(key, modifiers), Some(Intent::Quit));
}

#[test]
fn unhandled_key_is_none() {
    assert_eq!(map_key(TermKeyCode::PageUp, NONE), None);
}

#[test]
fn modifier_bits_are_read_one_by_one() {
    let all = TermModifiers { bits: 0b11_1111 };
    let (_, m) = map_key(TermKeyCode::Enter, all).unwrap();
    assert!(m.ctrl && m.alt && m.shift);
    let (_, m) = map_key(TermKeyCode::Enter, TermModifiers { bits: 0b1000 }).unwrap();
    assert!(!m.ctrl && !m.alt && !m.shift);
}

#[test]
fn event_loop_quits_on_esc_press_only() {
    let mut state = AppState::default();
    let release = TermKeyEvent { code: TermKeyCode::Esc, modifiers: NONE, kind: TermKeyKind::Release };
    let (quit, _) = handle_key_event(&mut state, release);
    assert!(!quit);
    assert!(!state.should_quit);
    let press = TermKeyEvent { code: TermKeyCode::Esc, modifiers: NONE, kind: TermKeyKind::Press };
    let (quit, _) = handle_key_event(&mut state, press);
    assert!(quit);
}

#[test]
fn event_loop_types_characters() {
    let mut state = AppState::default();
    let press = TermKeyEvent { code: TermKeyCode::Char('d'), modifiers: NONE, kind: TermKeyKind::Press };
    let (quit, effects) = handle_key_event(&mut state, press);
    assert!(!quit);
    assert!(effects.is_empty());
    assert_eq!(state.typed, "d");
    assert_eq!(state.filtered, vec![1]);
}

#[test]
fn ignored_events_leave_the_whole_state_alone() {
    let mut state = AppState::default();
    let before_title = state.title.clone();
    let repeat = TermKeyEvent { code: TermKeyCode::Char('x'), modifiers: NONE, kind: TermKeyKind::Repeat };
    let unmapped = TermKeyEvent { code: TermKeyCode::F(5), modifiers: NONE, kind: TermKeyKind::Press };
    for event in [repeat, unmapped] {
        let (quit, effects) = handle_key_event(&mut state, event);
        assert!(!quit && effects.is_empty());
        assert_eq!(state.title, before_title);
        assert_eq!(state.sections.len(), 1);
        assert!(state.typed.is_empty());
        assert_eq!(state.filtered, vec![0, 1, 2]);
    }
}
