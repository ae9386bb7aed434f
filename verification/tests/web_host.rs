use start_page::key::key_to_intent;
use start_page::state::Intent;
use start_page::web_host::{map_key, WebKeyCode, WebKeyEvent};

fn event(code: WebKeyCode, ctrl: bool, alt: bool, shift: bool) -> WebKeyEvent {
    WebKeyEvent { code, ctrl, alt, shift }
}

#[test]
fn lib_maps_ctrl_c_quit() {
    let (key, modifiers) = map_key(&event(WebKeyCode::Char('c'), true, false, false)).unwrap();
    assert_eq!(key_to_intent(key, modifiers), Some(Intent::Quit));
}

#[test]
fn maps_shift_tab_to_prev() {
    let (key, modifiers) = map_key(&event(WebKeyCode::Tab, false, false, true)).unwrap();
    assert_eq!(key_to_intent(key, modifiers), Some(Intent::Prev));
}

#[test]
fn lib_unhandled_key_is_none() {
    assert_eq!(map_key(&event(WebKeyCode::PageUp, false, false, false)), None);
}

use start_page::state::{AppState, Effect};
use start_page::tui_host::{self, TermKeyCode, TermModifiers};
use start_page::web_host::{blocks_browser_default, handle_key_event};

#[test]
fn both_hosts_agree_on_the_same_key_press() {
    let shift_tab_term = tui_host::map_key(TermKeyCode::BackTab, TermModifiers { bits: 0 });
    let shift_tab_web = map_key(&event(WebKeyCode::Tab, false, false, true));
    assert_eq!(shift_tab_term, shift_tab_web);
    let ctrl_enter_term = tui_host::map_key(TermKeyCode::Enter, TermModifiers { bits: 0b10 });
    let ctrl_enter_web = map_key(&event(WebKeyCode::Enter, true, false, false));
    assert_eq!(ctrl_enter_term, ctrl_enter_web);
    assert_eq!(tui_host::map_key(TermKeyCode::PageUp, TermModifiers { bits: 0 }), None);
}

#[test]
fn web_key_events_drive_the_state() {
    let mut state = AppState::default();
    assert!(handle_key_event(&mut state, &event(WebKeyCode::Char('n'), false, false, false)).is_empty());
    assert_eq!(state.filtered, vec![2]);
    let effects = handle_key_event(&mut state, &event(WebKeyCode::Enter, false, false, false));
    assert!(matches!(effects.as_slice(), [Effect::Open(u)] if u == "https://news.ycombinator.com"));
    assert!(handle_key_event(&mut state, &event(WebKeyCode::Home, false, false, false)).is_empty());
    assert_eq!(state.typed, "n");
}

#[test]
fn browser_defaults_blocked_for_tab_arrows_and_space() {
    for k in ["Tab", "ArrowUp", "ArrowDown", "ArrowLeft", "ArrowRight", " "] {
        assert!(blocks_browser_default(k), "{k}");
    }
    for k in ["Enter", "a", "tab", "Escape", ""] {
        assert!(!blocks_browser_default(k), "{k}");
    }
}
