//! Properties that hold across calls: what typing, moving and accepting do to the state,
//! and that both hosts read a key press alike.

use vstd::prelude::*;
use crate::key::intent_of_key;
use crate::links::{is_unreserved, percent_encode, percent_encode_byte};
use crate::state::{all_indices, filter_links, link_matches, Intent, StateView};
use crate::text::{ascii_lower_seq, is_subsequence};
use crate::tui_host::{after_key_event, term_key, TermKeyCode, TermKeyEvent, TermKeyKind, TermModifiers};
use crate::web_host::{after_web_key_event, web_key, WebKeyCode, WebKeyEvent};
use crate::links::search_url;
use crate::state::{activate_effects, command_of, find_shortcut, EffectView};
use crate::text::starts_with;
use crate::theme::{hex_digit_value, parse_color_bytes, hex_body};

verus! {

/// `Prev` undoes `Next`, and `Next` undoes `Prev`, whenever a link is listed.
pub proof fn lemma_next_prev_inverse(v: StateView)
    requires
        v.wf(),
        v.filtered.len() > 0,
    ensures
        v.step(Intent::Next).step(Intent::Prev) == v,
        v.step(Intent::Prev).step(Intent::Next) == v,
{
    let n = v.filtered.len();
    let s = v.selected;
    if s + 1 < n {
        assert(crate::state::next_index(s, n) == s + 1);
    } else {
        assert(crate::state::next_index(s, n) == 0);
    }
    assert(v.step(Intent::Next).step(Intent::Prev).selected == s);
    assert(v.step(Intent::Next).step(Intent::Prev) =~= v);
    let p = crate::state::prev_index(s, n);
    if p + 1 < n {
        assert(crate::state::next_index(p, n) == p + 1);
    } else {
        assert(crate::state::next_index(p, n) == 0);
    }
    assert(v.step(Intent::Prev).step(Intent::Next) =~= v);
}

/// The selection stays on a listed link through any sequence of moves.
pub proof fn lemma_moves_stay_in_range(v: StateView, intent: Intent)
    requires
        v.wf(),
        v.filtered.len() > 0,
        intent == Intent::Next || intent == Intent::Prev,
    ensures
        v.step(intent).selected < v.step(intent).filtered.len(),
        v.step(intent).filtered == v.filtered,
{
}

/// `Backspace` undoes a typed character: the typed text, and the list filtered from it,
/// are what they were.
pub proof fn lemma_backspace_undoes_char(v: StateView, c: char)
    ensures
        v.step(Intent::Char(c)).step(Intent::Backspace) == v.retyped(v.typed),
{
    assert(v.typed.push(c).drop_last() =~= v.typed);
}

/// With nothing typed, every link is listed, in order.
pub proof fn lemma_empty_query_lists_all(links: Seq<Seq<char>>)
    requires
        links.len() <= usize::MAX,
    ensures
        filter_links(Seq::empty(), links) == all_indices(links.len()),
    decreases links.len(),
{
    if links.len() > 0 {
        lemma_empty_query_lists_all(links.drop_last());
        assert(ascii_lower_seq(Seq::<char>::empty()) =~= Seq::<char>::empty());
        assert(link_matches(Seq::empty(), links.last()));
        assert(filter_links(Seq::empty(), links) =~= all_indices(links.len()));
    }
}

proof fn lemma_subsequence_drop_last(q: Seq<char>, s: Seq<char>)
    requires
        q.len() > 0,
        is_subsequence(q, s),
    ensures
        is_subsequence(q.drop_last(), s),
    decreases s.len(),
{
    if q.len() == 1 {
        assert(q.drop_last().len() == 0);
    } else if s.len() > 0 {
        if q[0] == s[0] {
            lemma_subsequence_drop_last(q.drop_first(), s.drop_first());
            assert(q.drop_first().drop_last() =~= q.drop_last().drop_first());
        } else {
            lemma_subsequence_drop_last(q, s.drop_first());
        }
    }
}

/// Typing one more character never lists a link that was not listed before.
pub proof fn lemma_typing_narrows(t: Seq<char>, c: char, links: Seq<Seq<char>>)
    requires
        links.len() <= usize::MAX,
    ensures
        forall|i: usize|
            filter_links(t.push(c), links).contains(i) ==> filter_links(t, links).contains(i),
{
    crate::state::lemma_filter_links(t.push(c), links);
    crate::state::lemma_filter_links(t, links);
    assert forall|i: usize| filter_links(t.push(c), links).contains(i) implies filter_links(
        t,
        links,
    ).contains(i) by {
        let f = filter_links(t.push(c), links);
        let k = choose|k: int| 0 <= k < f.len() && f[k] == i;
        assert(link_matches(t.push(c), links[i as int]));
        assert(ascii_lower_seq(t.push(c)).drop_last() =~= ascii_lower_seq(t));
        lemma_subsequence_drop_last(ascii_lower_seq(t.push(c)), ascii_lower_seq(links[i as int]));
    }
}

proof fn lemma_subsequence_reflexive(s: Seq<char>)
    ensures
        is_subsequence(s, s),
    decreases s.len(),
{
    if s.len() > 0 {
        lemma_subsequence_reflexive(s.drop_first());
    }
}

/// Accepting the suggestion types the suggested link, and that link stays listed.
pub proof fn lemma_accepted_suggestion_stays_listed(v: StateView)
    requires
        v.wf(),
        v.suggestion() is Some,
    ensures
        v.step(Intent::AcceptSuggestion).typed == v.links[v.suggestion()->0 as int],
        v.step(Intent::AcceptSuggestion).filtered.contains(v.suggestion()->0),
{
    let i = v.suggestion()->0;
    lemma_subsequence_reflexive(ascii_lower_seq(v.links[i as int]));
    crate::state::lemma_filter_links(v.links[i as int], v.links);
}

/// `Quit` is the only intent that asks to quit, and nothing takes the request back.
pub proof fn lemma_quit(v: StateView, intent: Intent)
    ensures
        v.step(Intent::Quit).should_quit,
        intent != Intent::Quit ==> v.step(intent).should_quit == v.should_quit,
{
}

/// The browser key that a terminal key code is, when the browser has it.
pub open spec fn web_code_of(code: TermKeyCode) -> Option<WebKeyCode> {
    match code {
        TermKeyCode::Char(c) => Some(WebKeyCode::Char(c)),
        TermKeyCode::F(n) => Some(WebKeyCode::F(n)),
        TermKeyCode::Backspace => Some(WebKeyCode::Backspace),
        TermKeyCode::Enter => Some(WebKeyCode::Enter),
        TermKeyCode::Left => Some(WebKeyCode::Left),
        TermKeyCode::Right => Some(WebKeyCode::Right),
        TermKeyCode::Up => Some(WebKeyCode::Up),
        TermKeyCode::Down => Some(WebKeyCode::Down),
        TermKeyCode::Tab => Some(WebKeyCode::Tab),
        TermKeyCode::Delete => Some(WebKeyCode::Delete),
        TermKeyCode::Home => Some(WebKeyCode::Home),
        TermKeyCode::End => Some(WebKeyCode::End),
        TermKeyCode::PageUp => Some(WebKeyCode::PageUp),
        TermKeyCode::PageDown => Some(WebKeyCode::PageDown),
        TermKeyCode::Esc => Some(WebKeyCode::Esc),
        _ => None,
    }
}

/// The same physical key press, as the terminal and as the browser report it. The
/// terminal's `BackTab` is the browser's `Tab` with shift held.
pub open spec fn same_key_press(code: TermKeyCode, m: TermModifiers, event: WebKeyEvent) -> bool {
    &&& event.ctrl == m.ctrl()
    &&& event.alt == m.alt()
    &&& if code == TermKeyCode::BackTab {
        event.code == WebKeyCode::Tab && event.shift
    } else {
        web_code_of(code) == Some(event.code) && event.shift == m.shift()
    }
}

/// Both hosts produce the same key, and so the same intent, for the same physical key press.
pub proof fn lemma_hosts_agree(code: TermKeyCode, m: TermModifiers, event: WebKeyEvent)
    requires
        same_key_press(code, m, event),
    ensures
        term_key(code, m) == web_key(event),
        term_key(code, m) matches Some((k, mods)) ==> web_key(event) matches Some((k2, mods2))
            && intent_of_key(k, mods) == intent_of_key(k2, mods2),
{
}

/// A percent-encoded query holds only unreserved characters, `%`, and upper-case hex digits.
pub proof fn lemma_percent_encoding_is_url_safe(bytes: Seq<u8>)
    ensures
        forall|k: int|
            0 <= k < percent_encode(bytes).len() ==> {
                let c = #[trigger] percent_encode(bytes)[k];
                ||| c == '%'
                ||| ('0' <= c && c <= '9')
                ||| ('A' <= c && c <= 'Z')
                ||| ('a' <= c && c <= 'z')
                ||| c == '-' || c == '.' || c == '_' || c == '~'
            },
    decreases bytes.len(),
{
    if bytes.len() > 0 {
        lemma_percent_encoding_is_url_safe(bytes.drop_last());
        let b = bytes.last();
        let prev = percent_encode(bytes.drop_last());
        let e = percent_encode_byte(b);
        assert(percent_encode(bytes) == prev + e);
        assert forall|k: int| 0 <= k < e.len() implies {
            let c = #[trigger] e[k];
            ||| c == '%'
            ||| ('0' <= c && c <= '9')
            ||| ('A' <= c && c <= 'Z')
            ||| ('a' <= c && c <= 'z')
            ||| c == '-' || c == '.' || c == '_' || c == '~'
        } by {
            if is_unreserved(b) {
            } else {
                assert(b / 16 < 16 && b % 16 < 16);
            }
        }
        assert forall|k: int| 0 <= k < percent_encode(bytes).len() implies {
            let c = #[trigger] percent_encode(bytes)[k];
            ||| c == '%'
            ||| ('0' <= c && c <= '9')
            ||| ('A' <= c && c <= 'Z')
            ||| ('a' <= c && c <= 'z')
            ||| c == '-' || c == '.' || c == '_' || c == '~'
        } by {
            if k < prev.len() {
                assert(percent_encode(bytes)[k] == prev[k]);
            } else {
                assert(percent_encode(bytes)[k] == e[k - prev.len()]);
            }
        }
    }
}

/// The list shown is the list the typed text filters to.
pub open spec fn consistent(v: StateView) -> bool {
    v.filtered == filter_links(v.typed, v.links)
}

/// The state after a sequence of intents, applied in order.
pub open spec fn run_intents(v: StateView, intents: Seq<Intent>) -> StateView
    decreases intents.len(),
{
    if intents.len() == 0 {
        v
    } else {
        run_intents(v.step(intents[0]), intents.drop_first())
    }
}

/// Every intent keeps the shown list equal to the typed text's filter.
pub proof fn lemma_step_consistent(v: StateView, intent: Intent)
    requires
        consistent(v),
    ensures
        consistent(v.step(intent)),
        v.step(intent).links == v.links,
{
}

/// Over any sequence of intents from a well-formed state whose list matches its typed
/// text: the links stay as they were; every listed index names a link and is listed
/// once, in increasing order; the selection names a listed link; and with nothing typed
/// every link is listed.
pub proof fn lemma_intents_keep_the_list(v: StateView, intents: Seq<Intent>)
    requires
        v.wf(),
        consistent(v),
    ensures
        run_intents(v, intents).links == v.links,
        run_intents(v, intents).wf(),
        consistent(run_intents(v, intents)),
        forall|k: int|
            0 <= k < run_intents(v, intents).filtered.len() ==> #[trigger] run_intents(
                v,
                intents,
            ).filtered[k] < v.links.len(),
        forall|k1: int, k2: int|
            0 <= k1 < k2 < run_intents(v, intents).filtered.len() ==> run_intents(
                v,
                intents,
            ).filtered[k1] < run_intents(v, intents).filtered[k2],
        run_intents(v, intents).filtered.len() > 0 ==> run_intents(v, intents).selected
            < run_intents(v, intents).filtered.len(),
        run_intents(v, intents).typed.len() == 0 ==> run_intents(v, intents).filtered
            == all_indices(v.links.len()),
    decreases intents.len(),
{
    if intents.len() == 0 {
        crate::state::lemma_filter_links(v.typed, v.links);
        if v.typed.len() == 0 {
            assert(v.typed =~= Seq::<char>::empty());
            lemma_empty_query_lists_all(v.links);
        }
    } else {
        crate::state::lemma_step_wf(v, intents[0]);
        lemma_step_consistent(v, intents[0]);
        lemma_intents_keep_the_list(v.step(intents[0]), intents.drop_first());
    }
}

/// A state whose every link is listed, nothing typed, starts such a sequence.
pub proof fn lemma_fresh_state_is_consistent(v: StateView)
    requires
        v.typed.len() == 0,
        v.filtered == all_indices(v.links.len()),
        v.links.len() <= usize::MAX,
    ensures
        consistent(v),
{
    assert(v.typed =~= Seq::<char>::empty());
    lemma_empty_query_lists_all(v.links);
}

/// Text with a space in it is never taken for a host: when it spells no command, lists no
/// link and invokes no shortcut, `Enter` searches the whole text with the default engine.
pub proof fn lemma_text_with_space_is_searched(
    v: StateView,
    engine: Seq<char>,
    shortcuts: Seq<(Seq<char>, Seq<char>)>,
)
    requires
        v.typed.contains(' '),
        command_of(v.typed) is None,
        v.filtered.len() == 0,
        find_shortcut(v.typed, shortcuts) is None,
    ensures
        activate_effects(v, engine, shortcuts) == seq![EffectView::Open(search_url(engine, v.typed))],
{
}

/// A shortcut is found wherever it stands in the list: the first shortcut whose prefix and
/// a space begin the text sends the rest of the text to its own template, and there is no
/// shortcut exactly when no prefix and space begin the text.
pub proof fn lemma_first_matching_shortcut_wins(t: Seq<char>, shortcuts: Seq<(Seq<char>, Seq<char>)>)
    ensures
        forall|k: int|
            0 <= k < shortcuts.len() && starts_with(t, (#[trigger] shortcuts[k]).0.push(' '))
                && (forall|j: int| 0 <= j < k ==> !starts_with(t, shortcuts[j].0.push(' ')))
                ==> find_shortcut(t, shortcuts) == Some(
                (shortcuts[k].1, t.skip(shortcuts[k].0.len() + 1int)),
            ),
        find_shortcut(t, shortcuts) is None <==> forall|k: int|
            0 <= k < shortcuts.len() ==> !starts_with(t, (#[trigger] shortcuts[k]).0.push(' ')),
    decreases shortcuts.len(),
{
    if shortcuts.len() > 0 {
        let rest = shortcuts.drop_first();
        lemma_first_matching_shortcut_wins(t, rest);
        assert forall|k: int|
            0 <= k < shortcuts.len() && starts_with(t, (#[trigger] shortcuts[k]).0.push(' '))
                && (forall|j: int| 0 <= j < k ==> !starts_with(t, shortcuts[j].0.push(' ')))
            implies find_shortcut(t, shortcuts) == Some(
            (shortcuts[k].1, t.skip(shortcuts[k].0.len() + 1int)),
        ) by {
            if k > 0 {
                assert(!starts_with(t, shortcuts[0].0.push(' ')));
                assert(rest[k - 1] == shortcuts[k]);
                assert forall|j: int| 0 <= j < k - 1 implies !starts_with(t, rest[j].0.push(' ')) by {
                    assert(rest[j] == shortcuts[j + 1]);
                }
            }
        }
        if find_shortcut(t, shortcuts) is None {
            assert forall|k: int| 0 <= k < shortcuts.len() implies !starts_with(
                t,
                (#[trigger] shortcuts[k]).0.push(' '),
            ) by {
                if k > 0 {
                    assert(rest[k - 1] == shortcuts[k]);
                }
            }
        } else {
            if !starts_with(t, shortcuts[0].0.push(' ')) {
                let k = choose|k: int| 0 <= k < rest.len() && starts_with(t, (#[trigger] rest[k]).0.push(' '));
                assert(shortcuts[k + 1] == rest[k]);
            }
        }
    }
}

/// The suggestion, when there is one, is the top listed link; and the top listed link is
/// suggested whenever it begins with the typed text, case ignored.
pub proof fn lemma_suggestion_is_the_top_match(v: StateView)
    requires
        v.wf(),
    ensures
        v.suggestion() matches Some(i) ==> v.filtered.len() > 0 && i == v.filtered[0],
        (v.typed.len() > 0 && v.filtered.len() > 0 && starts_with(
            ascii_lower_seq(v.links[v.filtered[0] as int]),
            ascii_lower_seq(v.typed),
        )) ==> v.suggestion() == Some(v.filtered[0]),
{
}

/// `Up` moves the selection one link back and `Down` one link forward, wrapping, in the
/// terminal host whatever the modifiers.
pub proof fn lemma_terminal_up_down(v: StateView, m: TermModifiers)
    requires
        v.wf(),
        v.filtered.len() > 0,
    ensures
        after_key_event(v, TermKeyEvent { code: TermKeyCode::Up, modifiers: m, kind: TermKeyKind::Press }).selected
            == if v.selected == 0 { v.filtered.len() - 1 } else { v.selected - 1 },
        after_key_event(v, TermKeyEvent { code: TermKeyCode::Down, modifiers: m, kind: TermKeyKind::Press }).selected
            == if v.selected + 1 == v.filtered.len() { 0 } else { v.selected + 1 },
        term_key(TermKeyCode::Up, m) matches Some((k, _)) && k == crate::key::Key::Up,
        term_key(TermKeyCode::Down, m) matches Some((k, _)) && k == crate::key::Key::Down,
{
}

/// `Up` moves the selection one link back and `Down` one link forward, wrapping, in the
/// browser host whatever the modifiers.
pub proof fn lemma_browser_up_down(v: StateView, ctrl: bool, alt: bool, shift: bool)
    requires
        v.wf(),
        v.filtered.len() > 0,
    ensures
        after_web_key_event(v, WebKeyEvent { code: WebKeyCode::Up, ctrl, alt, shift }).selected
            == if v.selected == 0 { v.filtered.len() - 1 } else { v.selected - 1 },
        after_web_key_event(v, WebKeyEvent { code: WebKeyCode::Down, ctrl, alt, shift }).selected
            == if v.selected + 1 == v.filtered.len() { 0 } else { v.selected + 1 },
        web_key(WebKeyEvent { code: WebKeyCode::Up, ctrl, alt, shift }) matches Some((k, _)) && k
            == crate::key::Key::Up,
        web_key(WebKeyEvent { code: WebKeyCode::Down, ctrl, alt, shift }) matches Some((k, _)) && k
            == crate::key::Key::Down,
{
}

/// ASCII lower case of one byte.
pub open spec fn lower_byte(b: u8) -> u8 {
    if 0x41 <= b && b <= 0x5a {
        (b + 32) as u8
    } else {
        b
    }
}

/// Colour parsing ignores ASCII case: a text reads as the same colour, or fails alike,
/// with its letters lowered.
pub proof fn lemma_color_parse_ignores_case(bytes: Seq<u8>)
    ensures
        parse_color_bytes(bytes) == parse_color_bytes(bytes.map_values(|b: u8| lower_byte(b))),
        forall|b: u8| #[trigger] hex_digit_value(lower_byte(b)) == hex_digit_value(b),
        forall|b: u8|
            0x61 <= b <= 0x66 ==> #[trigger] hex_digit_value(b) == Some((b - 0x57) as u8),
{
    let low = bytes.map_values(|b: u8| lower_byte(b));
    assert forall|b: u8| #[trigger] hex_digit_value(lower_byte(b)) == hex_digit_value(b) by {}
    let h = hex_body(bytes);
    let hl = hex_body(low);
    if bytes.len() > 0 && bytes[0] == 0x23 {
        assert(low[0] == 0x23);
    } else if bytes.len() > 0 {
        assert(low[0] != 0x23);
    }
    assert(hl.len() == h.len());
    assert forall|i: int| 0 <= i < h.len() implies #[trigger] hl[i] == lower_byte(h[i]) by {
        if bytes.len() > 0 && bytes[0] == 0x23 {
            assert(h[i] == bytes[i + 1] && hl[i] == low[i + 1]);
        } else {
            assert(h[i] == bytes[i] && hl[i] == low[i]);
        }
    }
    if h.len() == 6 {
        assert(hex_digit_value(hl[0]) == hex_digit_value(h[0]));
        assert(hex_digit_value(hl[1]) == hex_digit_value(h[1]));
        assert(hex_digit_value(hl[2]) == hex_digit_value(h[2]));
        assert(hex_digit_value(hl[3]) == hex_digit_value(h[3]));
        assert(hex_digit_value(hl[4]) == hex_digit_value(h[4]));
        assert(hex_digit_value(hl[5]) == hex_digit_value(h[5]));
    }
}

} // verus!
