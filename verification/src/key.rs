//! The library's own key representation. Each host maps its native key events into
//! [`Key`] and [`Modifiers`] before calling [`key_to_intent`].

use vstd::prelude::*;
use crate::state::Intent;

verus! {

#[derive(Debug, Clone, Copy, PartialEq, Eq, Structural)]
pub enum Key {
    Char(char),
    Backspace,
    Enter,
    /// Shift+Tab arrives as a key of its own in terminals but as `Tab` plus shift in the
    /// browser; hosts normalize both into `Tab` with [`Modifiers::shift`] set.
    Tab,
    Up,
    Down,
    Esc,
}

#[derive(Debug, Clone, Copy, PartialEq, Eq, Structural)]
pub struct Modifiers {
    pub ctrl: bool,
    pub alt: bool,
    pub shift: bool,
}

impl Modifiers {
    /// No modifier held.
    pub fn none() -> (m: Modifiers)
        ensures
            m == (Modifiers { ctrl: false, alt: false, shift: false }),
    {
        Modifiers { ctrl: false, alt: false, shift: false }
    }

    /// `Ctrl` alone.
    pub fn ctrl_only() -> (m: Modifiers)
        ensures
            m == (Modifiers { ctrl: true, alt: false, shift: false }),
    {
        Modifiers { ctrl: true, alt: false, shift: false }
    }

    /// `Shift` alone.
    pub fn shift_only() -> (m: Modifiers)
        ensures
            m == (Modifiers { ctrl: false, alt: false, shift: true }),
    {
        Modifiers { ctrl: false, alt: false, shift: true }
    }
}

impl Default for Modifiers {
    fn default() -> (m: Self)
        ensures
            m == (Modifiers { ctrl: false, alt: false, shift: false }),
    {
        Modifiers { ctrl: false, alt: false, shift: false }
    }
}

/// The intent a key press stands for.
pub open spec fn intent_of_key(key: Key, modifiers: Modifiers) -> Intent {
    match key {
        Key::Char(c) => if c == 'c' && modifiers.ctrl { Intent::Quit } else { Intent::Char(c) },
        Key::Backspace => Intent::Backspace,
        Key::Enter => if modifiers.ctrl { Intent::ForceSearch } else { Intent::Activate },
        Key::Tab => if modifiers.shift { Intent::Prev } else { Intent::AcceptSuggestion },
        Key::Up => Intent::Prev,
        Key::Down => Intent::Next,
        Key::Esc => Intent::Quit,
    }
}

/// Pure: no I/O, no state. The same `(Key, Modifiers)` always yields the same intent.
///
/// `Ctrl+C` and `Esc` quit (`q` is an ordinary character, so it can be typed);
/// `Ctrl+Enter` searches without opening links; `Tab` accepts the inline suggestion and
/// `Shift+Tab` moves the selection back, as `Up` does.
pub fn key_to_intent(key: Key, modifiers: Modifiers) -> (r: Option<Intent>)
    ensures
        r == Some(intent_of_key(key, modifiers)),
{
    let intent = match key {
        Key::Char(c) => if c == 'c' && modifiers.ctrl { Intent::Quit } else { Intent::Char(c) },
        Key::Backspace => Intent::Backspace,
        Key::Enter => if modifiers.ctrl { Intent::ForceSearch } else { Intent::Activate },
        Key::Tab => if modifiers.shift { Intent::Prev } else { Intent::AcceptSuggestion },
        Key::Up => Intent::Prev,
        Key::Down => Intent::Next,
        Key::Esc => Intent::Quit,
    };
    Some(intent)
}

/// The `Alt` modifier never changes which intent a key stands for.
pub proof fn lemma_alt_is_ignored(key: Key, modifiers: Modifiers, alt: bool)
    ensures
        intent_of_key(key, modifiers) == intent_of_key(
            key,
            Modifiers { ctrl: modifiers.ctrl, alt, shift: modifiers.shift },
        ),
{
}

/// Shift only matters on `Tab`, and `Ctrl` only on `c` and `Enter`.
pub proof fn lemma_modifiers_matter_only_where_bound(key: Key, m1: Modifiers, m2: Modifiers)
    ensures
        (key matches Key::Char(c) && c != 'c') ==> intent_of_key(key, m1) == intent_of_key(key, m2),
        (key is Backspace || key is Up || key is Down || key is Esc) ==> intent_of_key(key, m1)
            == intent_of_key(key, m2),
        (key is Enter && m1.ctrl == m2.ctrl) ==> intent_of_key(key, m1) == intent_of_key(key, m2),
        (key is Tab && m1.shift == m2.shift) ==> intent_of_key(key, m1) == intent_of_key(key, m2),
{
}

} // verus!
