//! The browser host's key events, as plain values, and their mapping.

use vstd::prelude::*;
use crate::key::{intent_of_key, key_to_intent, Key, Modifiers};
use crate::state::{effect_views, effects_of, reduce, shortcut_views, AppState, Effect, EffectView};
use crate::text::{chars_of, same_chars};

verus! {

/// A browser key code, as the DOM backend reports it.
#[derive(Debug, Clone, Copy, PartialEq, Eq, Structural)]
pub enum WebKeyCode {
    Char(char),
    F(u8),
    Backspace,
    Enter,
    Left,
    Right,
    Up,
    Down,
    Tab,
    Delete,
    Home,
    End,
    PageUp,
    PageDown,
    Esc,
    Unidentified,
}

/// A browser key event with its modifier flags.
#[derive(Debug, Clone, Copy, PartialEq, Eq, Structural)]
pub struct WebKeyEvent {
    pub code: WebKeyCode,
    pub ctrl: bool,
    pub alt: bool,
    pub shift: bool,
}

/// The library key and modifiers a browser key stands for; `None` for keys the
/// application does not handle.
pub open spec fn web_key(event: WebKeyEvent) -> Option<(Key, Modifiers)> {
    let mods = Modifiers { ctrl: event.ctrl, alt: event.alt, shift: event.shift };
    match event.code {
        WebKeyCode::Char(c) => Some((Key::Char(c), mods)),
        WebKeyCode::Backspace => Some((Key::Backspace, mods)),
        WebKeyCode::Enter => Some((Key::Enter, mods)),
        WebKeyCode::Tab => Some((Key::Tab, mods)),
        WebKeyCode::Up => Some((Key::Up, mods)),
        WebKeyCode::Down => Some((Key::Down, mods)),
        WebKeyCode::Esc => Some((Key::Esc, mods)),
        _ => None,
    }
}

/// Maps a browser key event into the library's `Key` and `Modifiers`. Shift+Tab arrives
/// as `Tab` with shift set and stays so.
pub fn map_key(event: &WebKeyEvent) -> (r: Option<(Key, Modifiers)>)
    ensures
        r == web_key(*event),
{
    let modifiers = Modifiers { ctrl: event.ctrl, alt: event.alt, shift: event.shift };
    let key = match event.code {
        WebKeyCode::Char(c) => Key::Char(c),
        WebKeyCode::Backspace => Key::Backspace,
        WebKeyCode::Enter => Key::Enter,
        WebKeyCode::Tab => Key::Tab,
        WebKeyCode::Up => Key::Up,
        WebKeyCode::Down => Key::Down,
        WebKeyCode::Esc => Key::Esc,
        _ => {
            return None;
        },
    };
    Some((key, modifiers))
}

/// The state after the browser host has seen one key event: a key that stands for an
/// intent is applied, any other key changes nothing.
pub open spec fn after_web_key_event(v: crate::state::StateView, event: WebKeyEvent) -> crate::state::StateView {
    match web_key(event) {
        Some((key, mods)) => v.step(intent_of_key(key, mods)),
        None => v,
    }
}

/// What the browser host does with a key event: maps it, and applies the intent it stands
/// for. The effects of the intent are handed back.
pub fn handle_key_event(state: &mut AppState, event: &WebKeyEvent) -> (r: Vec<Effect>)
    requires
        old(state)@.wf(),
    ensures
        final(state)@ == after_web_key_event(old(state)@, *event),
        final(state)@.wf(),
        effect_views(r@) == match web_key(*event) {
            Some((key, mods)) => effects_of(
                old(state)@,
                old(state).default_engine.url_template@,
                shortcut_views(old(state).shortcuts@),
                intent_of_key(key, mods),
            ),
            None => Seq::empty(),
        },
        final(state).title == old(state).title,
        final(state).username == old(state).username,
        final(state).prompt_symbol == old(state).prompt_symbol,
        final(state).theme == old(state).theme,
        final(state).sections == old(state).sections,
        final(state).default_engine == old(state).default_engine,
        final(state).shortcuts == old(state).shortcuts,
        final(state).links == old(state).links,
{
    if let Some((key, mods)) = map_key(event) {
        if let Some(intent) = key_to_intent(key, mods) {
            return reduce(state, intent);
        }
    }
    let none: Vec<Effect> = Vec::new();
    proof {
        assert(effect_views(none@) =~= Seq::<EffectView>::empty());
    }
    none
}

/// The DOM key names whose browser default is stopped: `Tab` would move focus off the
/// grid the app listens on, and the arrows and space would scroll the page.
pub open spec fn blocked_key_names() -> Seq<Seq<char>> {
    seq![
        seq!['T', 'a', 'b'],
        seq!['A', 'r', 'r', 'o', 'w', 'U', 'p'],
        seq!['A', 'r', 'r', 'o', 'w', 'D', 'o', 'w', 'n'],
        seq!['A', 'r', 'r', 'o', 'w', 'L', 'e', 'f', 't'],
        seq!['A', 'r', 'r', 'o', 'w', 'R', 'i', 'g', 'h', 't'],
        seq![' '],
    ]
}

/// Whether the browser's own handling of a key (named as the DOM names it) is to be
/// stopped before the app sees the key.
pub fn blocks_browser_default(key: &str) -> (r: bool)
    ensures
        r == blocked_key_names().contains(key@),
{
    let k = chars_of(key);
    let names: Vec<Vec<char>> = vec![
        vec!['T', 'a', 'b'],
        vec!['A', 'r', 'r', 'o', 'w', 'U', 'p'],
        vec!['A', 'r', 'r', 'o', 'w', 'D', 'o', 'w', 'n'],
        vec!['A', 'r', 'r', 'o', 'w', 'L', 'e', 'f', 't'],
        vec!['A', 'r', 'r', 'o', 'w', 'R', 'i', 'g', 'h', 't'],
        vec![' '],
    ];
    let ghost views = blocked_key_names();
    let mut i: usize = 0;
    while i < names.len()
        invariant
            names.len() == 6,
            k@ == key@,
            views == blocked_key_names(),
            forall|j: int| 0 <= j < 6 ==> (#[trigger] names@[j])@ == views[j],
            i <= names.len(),
            forall|j: int| 0 <= j < i ==> views[j] != k@,
        decreases names.len() - i,
    {
        if same_chars(&k, &names[i]) {
            proof {
                assert(views[i as int] == k@);
                assert(0 <= i < views.len());
                assert(views.contains(k@));
            }
            return true;
        }
        i = i + 1;
    }
    proof {
        assert(!views.contains(k@));
    }
    false
}

} // verus!
