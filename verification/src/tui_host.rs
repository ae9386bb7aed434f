//! The terminal host's key events, as plain values, and what the event loop does with them.
//!
//! The host converts each terminal key event into [`TermKeyEvent`] one for one; the
//! decisions live here.

use vstd::prelude::*;
use crate::key::{intent_of_key, key_to_intent, Key, Modifiers};
use crate::state::{effect_views, effects_of, reduce, shortcut_views, AppState, Effect, StateView};

verus! {

/// A terminal key code, one variant for each that the terminal reports. `Media` and
/// `Modifier` keys are kept without their payload: nothing here reads it.
#[derive(Debug, Clone, Copy, PartialEq, Eq, Structural)]
pub enum TermKeyCode {
    Backspace,
    Enter,
    Left,
    Right,
    Up,
    Down,
    Home,
    End,
    PageUp,
    PageDown,
    Tab,
    BackTab,
    Delete,
    Insert,
    F(u8),
    Char(char),
    Null,
    Esc,
    CapsLock,
    ScrollLock,
    NumLock,
    PrintScreen,
    Pause,
    Menu,
    KeypadBegin,
    Media,
    Modifier,
}

/// The terminal's modifier bit set: shift `0x1`, control `0x2`, alt `0x4`, super `0x8`,
/// hyper `0x10`, meta `0x20`.
#[derive(Debug, Clone, Copy, PartialEq, Eq, Structural)]
pub struct TermModifiers {
    pub bits: u8,
}

/// Whether a key went down, repeated, or came up.
#[derive(Debug, Clone, Copy, PartialEq, Eq, Structural)]
pub enum TermKeyKind {
    Press,
    Repeat,
    Release,
}

/// A terminal key event.
#[derive(Debug, Clone, Copy, PartialEq, Eq, Structural)]
pub struct TermKeyEvent {
    pub code: TermKeyCode,
    pub modifiers: TermModifiers,
    pub kind: TermKeyKind,
}

impl TermModifiers {
    pub open spec fn ctrl(self) -> bool {
        self.bits & 0x2 != 0
    }

    pub open spec fn alt(self) -> bool {
        self.bits & 0x4 != 0
    }

    pub open spec fn shift(self) -> bool {
        self.bits & 0x1 != 0
    }
}

/// The library key and modifiers a terminal key stands for; `None` for keys the
/// application does not handle.
pub open spec fn term_key(code: TermKeyCode, modifiers: TermModifiers) -> Option<(Key, Modifiers)> {
    let mods = Modifiers { ctrl: modifiers.ctrl(), alt: modifiers.alt(), shift: modifiers.shift() };
    match code {
        TermKeyCode::Char(c) => Some((Key::Char(c), mods)),
        TermKeyCode::Backspace => Some((Key::Backspace, mods)),
        TermKeyCode::Enter => Some((Key::Enter, mods)),
        TermKeyCode::BackTab => Some(
            (Key::Tab, Modifiers { ctrl: mods.ctrl, alt: mods.alt, shift: true }),
        ),
        TermKeyCode::Tab => Some((Key::Tab, mods)),
        TermKeyCode::Up => Some((Key::Up, mods)),
        TermKeyCode::Down => Some((Key::Down, mods)),
        TermKeyCode::Esc => Some((Key::Esc, mods)),
        _ => None,
    }
}

/// Maps a terminal key press into the library's `Key` and `Modifiers`. Terminals report
/// Shift+Tab as a `BackTab` code of its own; it becomes `Tab` with shift, as in the browser.
pub fn map_key(code: TermKeyCode, modifiers: TermModifiers) -> (r: Option<(Key, Modifiers)>)
    ensures
        r == term_key(code, modifiers),
{
    let mods = Modifiers {
        ctrl: modifiers.bits & 0x2 != 0,
        alt: modifiers.bits & 0x4 != 0,
        shift: modifiers.bits & 0x1 != 0,
    };
    let key = match code {
        TermKeyCode::Char(c) => Key::Char(c),
        TermKeyCode::Backspace => Key::Backspace,
        TermKeyCode::Enter => Key::Enter,
        TermKeyCode::BackTab => {
            return Some((Key::Tab, Modifiers { ctrl: mods.ctrl, alt: mods.alt, shift: true }));
        },
        TermKeyCode::Tab => Key::Tab,
        TermKeyCode::Up => Key::Up,
        TermKeyCode::Down => Key::Down,
        TermKeyCode::Esc => Key::Esc,
        _ => {
            return None;
        },
    };
    Some((key, mods))
}

/// The state after the event loop has seen one key event: key presses that stand for an
/// intent are applied; repeats, releases and unhandled keys change nothing.
pub open spec fn after_key_event(v: StateView, event: TermKeyEvent) -> StateView {
    if event.kind == TermKeyKind::Press {
        match term_key(event.code, event.modifiers) {
            Some((key, mods)) => v.step(intent_of_key(key, mods)),
            None => v,
        }
    } else {
        v
    }
}

/// One turn of the terminal event loop after a key event: applies it to the state and says
/// whether the application should now quit. The effects of the intent are handed back.
pub fn handle_key_event(state: &mut AppState, event: TermKeyEvent) -> (r: (bool, Vec<Effect>))
    requires
        old(state)@.wf(),
    ensures
        final(state)@ == after_key_event(old(state)@, event),
        final(state)@.wf(),
        r.0 == (event.kind == TermKeyKind::Press && term_key(event.code, event.modifiers) is Some
            && final(state).should_quit),
        effect_views(r.1@) == if event.kind == TermKeyKind::Press {
            match term_key(event.code, event.modifiers) {
                Some((key, mods)) => effects_of(
                    old(state)@,
                    old(state).default_engine.url_template@,
                    shortcut_views(old(state).shortcuts@),
                    intent_of_key(key, mods),
                ),
                None => Seq::empty(),
            }
        } else {
            Seq::empty()
        },
        final(state).title == old(state).title,
        final(state).username == old(state).username,
        final(state).prompt_symbol == old(state).prompt_symbol,
        final(state).theme == old(state).theme,
        final(state).sections == old(state).sections,
        final(state).default_engine == old(state).default_engine,
        final(state).shortcuts == old(state).shortcuts,
        final(state).links == old(state).links,
{
    if event.kind == TermKeyKind::Press {
        if let Some((key, mods)) = map_key(event.code, event.modifiers) {
            if let Some(intent) = key_to_intent(key, mods) {
                let effects = reduce(state, intent);
                return (state.should_quit, effects);
            }
        }
    }
    let none: Vec<Effect> = Vec::new();
    proof {
        assert(effect_views(none@) =~= Seq::<crate::state::EffectView>::empty());
    }
    (false, none)
}

} // verus!
