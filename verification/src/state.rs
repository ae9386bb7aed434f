//! The application state and the pure state machine that drives it.
//!
//! [`reduce`] is synchronous and does no I/O: it changes the state and returns the
//! [`Effect`]s that a host is to carry out (opening a URL, showing help, ...).

use vstd::prelude::*;
use vstd::string::StringExecFns;
use crate::links::{
    default_sections, default_shortcuts, is_url_like, looks_like_url, normalize_url,
    normalized_url, search_url, Link, SearchEngine, Section, Shortcut,
};
use crate::text::{
    ascii_lower_seq, chars_of, has_prefix, is_subsequence, lower_chars, same_chars,
    starts_with, string_from, string_pop, string_push, subsequence,
};
use crate::theme::Theme;

verus! {

/// What a key press, or a host, asks the application to do.
#[derive(Debug, Clone, Copy, PartialEq, Eq, Structural)]
pub enum Intent {
    /// Type a character at the prompt.
    Char(char),
    /// Delete the last typed character.
    Backspace,
    /// Move the selection forward, wrapping past the last link.
    Next,
    /// Move the selection back, wrapping past the first link.
    Prev,
    /// `Enter`: run a command, open the selection or the filtered links, or search.
    Activate,
    /// `Ctrl+Enter`: search for the typed text without opening links.
    ForceSearch,
    /// `Tab`: replace the typed text with the inline suggestion.
    AcceptSuggestion,
    Quit,
}

/// Work that [`reduce`] hands back to the host.
#[derive(Debug, Clone)]
pub enum Effect {
    /// Open a URL.
    Open(String),
    /// The `help` command.
    ShowHelp,
    /// The `config path` command.
    ShowConfigPath,
    /// The `config edit` command.
    EditConfig,
    /// The `theme <name>` command.
    SetTheme(String),
}

/// An [`Effect`] with its strings taken as character sequences.
pub enum EffectView {
    Open(Seq<char>),
    ShowHelp,
    ShowConfigPath,
    EditConfig,
    SetTheme(Seq<char>),
}

impl View for Effect {
    type V = EffectView;

    open spec fn view(&self) -> EffectView {
        match self {
            Effect::Open(u) => EffectView::Open(u@),
            Effect::ShowHelp => EffectView::ShowHelp,
            Effect::ShowConfigPath => EffectView::ShowConfigPath,
            Effect::EditConfig => EffectView::EditConfig,
            Effect::SetTheme(n) => EffectView::SetTheme(n@),
        }
    }
}

pub open spec fn effect_views(v: Seq<Effect>) -> Seq<EffectView> {
    v.map_values(|e: Effect| e@)
}

/// A source of dashboard data. No provider exists yet.
pub trait Provider {}

/// Everything the UI renders.
pub struct AppState {
    pub title: String,
    pub username: String,
    pub prompt_symbol: String,
    pub theme: Theme,
    pub sections: Vec<Section>,
    pub default_engine: SearchEngine,
    pub shortcuts: Vec<Shortcut>,
    /// The links the prompt filters, in display order.
    pub links: Vec<String>,
    /// The text typed at the prompt.
    pub typed: String,
    /// Indices into `links` of the links that match `typed`, in display order.
    pub filtered: Vec<usize>,
    /// Position in `filtered` of the highlighted link.
    pub selected: usize,
    pub should_quit: bool,
}

/// The part of [`AppState`] that intents change.
pub struct StateView {
    pub links: Seq<Seq<char>>,
    pub typed: Seq<char>,
    pub filtered: Seq<usize>,
    pub selected: usize,
    pub should_quit: bool,
}

pub open spec fn string_views(v: Seq<String>) -> Seq<Seq<char>> {
    v.map_values(|s: String| s@)
}

impl View for AppState {
    type V = StateView;

    open spec fn view(&self) -> StateView {
        StateView {
            links: string_views(self.links@),
            typed: self.typed@,
            filtered: self.filtered@,
            selected: self.selected,
            should_quit: self.should_quit,
        }
    }
}

/// A link matches the typed text when the text, ASCII case ignored, can be read out of the
/// link by skipping characters.
pub open spec fn link_matches(query: Seq<char>, link: Seq<char>) -> bool {
    is_subsequence(ascii_lower_seq(query), ascii_lower_seq(link))
}

/// The indices of the links that match `query`, in order.
pub open spec fn filter_links(query: Seq<char>, links: Seq<Seq<char>>) -> Seq<usize>
    decreases links.len(),
{
    if links.len() == 0 {
        Seq::empty()
    } else {
        let rest = filter_links(query, links.drop_last());
        if link_matches(query, links.last()) {
            rest.push((links.len() - 1) as usize)
        } else {
            rest
        }
    }
}

/// `0, 1, ..., n - 1`.
pub open spec fn all_indices(n: nat) -> Seq<usize> {
    Seq::new(n, |i: int| i as usize)
}

/// The selection after `Next` over `n` filtered links.
pub open spec fn next_index(s: usize, n: nat) -> usize {
    if s + 1 < n {
        (s + 1) as usize
    } else {
        0
    }
}

/// The selection after `Prev` over `n` filtered links.
pub open spec fn prev_index(s: usize, n: nat) -> usize {
    if n == 0 {
        0
    } else if s == 0 {
        (n - 1) as usize
    } else {
        (s - 1) as usize
    }
}

impl StateView {
    /// Every filtered index names a link, and the selection names a filtered link.
    pub open spec fn wf(self) -> bool {
        &&& self.links.len() <= usize::MAX
        &&& self.filtered.len() <= usize::MAX
        &&& forall|k: int| 0 <= k < self.filtered.len() ==> self.filtered[k] < self.links.len()
        &&& self.filtered.len() > 0 ==> self.selected < self.filtered.len()
    }

    /// The inline suggestion: the top match, when it begins with the typed text.
    pub open spec fn suggestion(self) -> Option<usize> {
        if self.typed.len() > 0 && self.filtered.len() > 0 && self.filtered[0] < self.links.len()
            && starts_with(
            ascii_lower_seq(self.links[self.filtered[0] as int]),
            ascii_lower_seq(self.typed),
        ) {
            Some(self.filtered[0])
        } else {
            None
        }
    }

    /// The state with `t` typed: the list filtered anew and the selection back at the top.
    pub open spec fn retyped(self, t: Seq<char>) -> StateView {
        StateView {
            links: self.links,
            typed: t,
            filtered: filter_links(t, self.links),
            selected: 0,
            should_quit: self.should_quit,
        }
    }

    pub open spec fn with_selected(self, s: usize) -> StateView {
        StateView {
            links: self.links,
            typed: self.typed,
            filtered: self.filtered,
            selected: s,
            should_quit: self.should_quit,
        }
    }

    /// The state after one intent.
    pub open spec fn step(self, intent: Intent) -> StateView {
        match intent {
            Intent::Char(c) => self.retyped(self.typed.push(c)),
            Intent::Backspace => if self.typed.len() == 0 {
                self
            } else {
                self.retyped(self.typed.drop_last())
            },
            Intent::Next => self.with_selected(next_index(self.selected, self.filtered.len())),
            Intent::Prev => self.with_selected(prev_index(self.selected, self.filtered.len())),
            Intent::AcceptSuggestion => match self.suggestion() {
                Some(i) => self.retyped(self.links[i as int]),
                None => self,
            },
            Intent::Quit => StateView {
                links: self.links,
                typed: self.typed,
                filtered: self.filtered,
                selected: self.selected,
                should_quit: true,
            },
            Intent::Activate => self,
            Intent::ForceSearch => self,
        }
    }
}

pub open spec fn help_word() -> Seq<char> {
    seq!['h', 'e', 'l', 'p']
}

pub open spec fn config_path_words() -> Seq<char> {
    seq!['c', 'o', 'n', 'f', 'i', 'g', ' ', 'p', 'a', 't', 'h']
}

pub open spec fn config_edit_words() -> Seq<char> {
    seq!['c', 'o', 'n', 'f', 'i', 'g', ' ', 'e', 'd', 'i', 't']
}

pub open spec fn theme_word() -> Seq<char> {
    seq!['t', 'h', 'e', 'm', 'e', ' ']
}

/// The command that typed text spells, if it spells one:
/// `help`, `config path`, `config edit`, `theme <name>`.
pub open spec fn command_of(t: Seq<char>) -> Option<EffectView> {
    if t == help_word() {
        Some(EffectView::ShowHelp)
    } else if t == config_path_words() {
        Some(EffectView::ShowConfigPath)
    } else if t == config_edit_words() {
        Some(EffectView::EditConfig)
    } else if t.len() > 6 && starts_with(t, theme_word()) {
        Some(EffectView::SetTheme(t.skip(6)))
    } else {
        None
    }
}

/// Shortcuts as `(prefix, URL template)` pairs.
pub open spec fn shortcut_views(v: Seq<Shortcut>) -> Seq<(Seq<char>, Seq<char>)> {
    v.map_values(|s: Shortcut| (s.prefix@, s.engine.url_template@))
}

/// The first shortcut whose prefix and a space begin `t`: its template and the rest of `t`.
pub open spec fn find_shortcut(t: Seq<char>, shortcuts: Seq<(Seq<char>, Seq<char>)>) -> Option<
    (Seq<char>, Seq<char>),
>
    decreases shortcuts.len(),
{
    if shortcuts.len() == 0 {
        None
    } else if starts_with(t, shortcuts[0].0.push(' ')) {
        Some((shortcuts[0].1, t.skip(shortcuts[0].0.len() + 1int)))
    } else {
        find_shortcut(t, shortcuts.drop_first())
    }
}

/// Where a search for `t` goes: a matching shortcut's engine with the rest of the text,
/// else the default engine with all of it.
pub open spec fn search_target(
    t: Seq<char>,
    engine: Seq<char>,
    shortcuts: Seq<(Seq<char>, Seq<char>)>,
) -> Seq<char> {
    match find_shortcut(t, shortcuts) {
        Some((template, query)) => search_url(template, query),
        None => search_url(engine, t),
    }
}

/// What `Enter` does: a command runs; otherwise, with links filtered, the selection opens
/// when nothing is typed and all filtered links open when something is; with no link
/// filtered, a shortcut searches, host-like text is navigated to, and anything else is
/// searched with the default engine.
pub open spec fn activate_effects(
    v: StateView,
    engine: Seq<char>,
    shortcuts: Seq<(Seq<char>, Seq<char>)>,
) -> Seq<EffectView> {
    if command_of(v.typed) is Some {
        seq![command_of(v.typed)->0]
    } else if v.filtered.len() > 0 {
        if v.typed.len() == 0 {
            seq![EffectView::Open(normalize_url(v.links[v.filtered[v.selected as int] as int]))]
        } else {
            v.filtered.map_values(|i: usize| EffectView::Open(normalize_url(v.links[i as int])))
        }
    } else if v.typed.len() == 0 {
        Seq::empty()
    } else if find_shortcut(v.typed, shortcuts) is None && looks_like_url(v.typed) {
        seq![EffectView::Open(normalize_url(v.typed))]
    } else {
        seq![EffectView::Open(search_target(v.typed, engine, shortcuts))]
    }
}

/// The effects of an intent on a state.
pub open spec fn effects_of(
    v: StateView,
    engine: Seq<char>,
    shortcuts: Seq<(Seq<char>, Seq<char>)>,
    intent: Intent,
) -> Seq<EffectView> {
    match intent {
        Intent::Activate => activate_effects(v, engine, shortcuts),
        Intent::ForceSearch => if v.typed.len() == 0 {
            Seq::empty()
        } else {
            seq![EffectView::Open(search_target(v.typed, engine, shortcuts))]
        },
        _ => Seq::empty(),
    }
}


/// The URLs of all links of all sections, section by section.
pub open spec fn section_urls(sections: Seq<Section>) -> Seq<Seq<char>>
    decreases sections.len(),
{
    if sections.len() == 0 {
        Seq::empty()
    } else {
        section_urls(sections.drop_last()) + link_urls(sections.last().links@)
    }
}

pub open spec fn link_urls(links: Seq<Link>) -> Seq<Seq<char>> {
    links.map_values(|l: Link| l.url@)
}

/// What `filter_links` yields: increasing indices of exactly the matching links.
pub proof fn lemma_filter_links(query: Seq<char>, links: Seq<Seq<char>>)
    requires
        links.len() <= usize::MAX,
    ensures
        filter_links(query, links).len() <= links.len(),
        forall|k: int|
            0 <= k < filter_links(query, links).len() ==> {
                let i = #[trigger] filter_links(query, links)[k];
                i < links.len() && link_matches(query, links[i as int])
            },
        forall|k1: int, k2: int|
            0 <= k1 < k2 < filter_links(query, links).len() ==> filter_links(query, links)[k1]
                < filter_links(query, links)[k2],
        forall|i: int|
            0 <= i < links.len() && link_matches(query, links[i]) ==> filter_links(
                query,
                links,
            ).contains(i as usize),
    decreases links.len(),
{
    if links.len() > 0 {
        let init = links.drop_last();
        lemma_filter_links(query, init);
        let rest = filter_links(query, init);
        let n = (links.len() - 1) as usize;
        assert forall|i: int| 0 <= i < links.len() && link_matches(query, links[i]) implies filter_links(
            query,
            links,
        ).contains(i as usize) by {
            if i < links.len() - 1 {
                assert(init[i] == links[i]);
                let k = choose|k: int| 0 <= k < rest.len() && rest[k] == i as usize;
                if link_matches(query, links.last()) {
                    assert(rest.push(n)[k] == i as usize);
                }
            } else {
                assert(rest.push(n)[rest.len() as int] == n);
            }
        }
        let f = filter_links(query, links);
        assert forall|k: int| 0 <= k < f.len() implies {
            let i = #[trigger] f[k];
            i < links.len() && link_matches(query, links[i as int])
        } by {
            if k < rest.len() {
                let i = rest[k];
                assert(f[k] == rest[k]);
                assert(init[i as int] == links[i as int]);
            } else {
                assert(f[k] == n);
            }
        }
        assert forall|k1: int, k2: int| 0 <= k1 < k2 < f.len() implies f[k1] < f[k2] by {
            if k2 < rest.len() {
                assert(f[k1] == rest[k1] && f[k2] == rest[k2]);
            } else {
                assert(f[k2] == n);
                assert(f[k1] == rest[k1]);
            }
        }
    }
}

/// Every filtered index names a link.
pub proof fn lemma_filter_links_in_range(query: Seq<char>, links: Seq<Seq<char>>)
    requires
        links.len() <= usize::MAX,
    ensures
        filter_links(query, links).len() <= links.len(),
        forall|k: int|
            0 <= k < filter_links(query, links).len() ==> #[trigger] filter_links(query, links)[k]
                < links.len(),
{
    lemma_filter_links(query, links);
    assert forall|k: int| 0 <= k < filter_links(query, links).len() implies #[trigger] filter_links(
        query,
        links,
    )[k] < links.len() by {
        let i = filter_links(query, links)[k];
    }
}

/// Retyping keeps the state well formed.
pub proof fn lemma_retyped_wf(v: StateView, t: Seq<char>)
    requires
        v.links.len() <= usize::MAX,
    ensures
        v.retyped(t).wf(),
{
    lemma_filter_links_in_range(t, v.links);
}

/// Every intent keeps the state well formed.
pub proof fn lemma_step_wf(v: StateView, intent: Intent)
    requires
        v.wf(),
    ensures
        v.step(intent).wf(),
{
    match intent {
        Intent::Char(c) => lemma_retyped_wf(v, v.typed.push(c)),
        Intent::Backspace => if v.typed.len() > 0 {
            lemma_retyped_wf(v, v.typed.drop_last())
        },
        Intent::AcceptSuggestion => if let Some(i) = v.suggestion() {
            lemma_retyped_wf(v, v.links[i as int])
        },
        _ => {},
    }
}

/// The indices of the links that match the typed text, in order.
pub fn filter_indices(typed: &str, links: &Vec<String>) -> (f: Vec<usize>)
    ensures
        f@ == filter_links(typed@, string_views(links@)),
{
    let q = lower_chars(typed);
    let mut f: Vec<usize> = Vec::new();
    let mut i: usize = 0;
    while i < links.len()
        invariant
            i <= links.len(),
            q@ == ascii_lower_seq(typed@),
            f@ == filter_links(typed@, string_views(links@).take(i as int)),
        decreases links.len() - i,
    {
        let l = lower_chars(links[i].as_str());
        let m = subsequence(&q, &l);
        proof {
            let vs = string_views(links@);
            assert(vs.take(i + 1).drop_last() =~= vs.take(i as int));
            assert(vs.take(i + 1).last() == links@[i as int]@);
        }
        if m {
            f.push(i);
        }
        i = i + 1;
    }
    proof {
        assert(string_views(links@).take(links.len() as int) =~= string_views(links@));
    }
    f
}

/// The command effect that typed text spells, if any.
fn command_effect(t: &Vec<char>) -> (r: Option<Effect>)
    ensures
        r is Some == command_of(t@) is Some,
        r is Some ==> command_of(t@) == Some(r->0@),
{
    let help: Vec<char> = vec!['h', 'e', 'l', 'p'];
    let config_path: Vec<char> = vec!['c', 'o', 'n', 'f', 'i', 'g', ' ', 'p', 'a', 't', 'h'];
    let config_edit: Vec<char> = vec!['c', 'o', 'n', 'f', 'i', 'g', ' ', 'e', 'd', 'i', 't'];
    let theme: Vec<char> = vec!['t', 'h', 'e', 'm', 'e', ' '];
    if same_chars(t, &help) {
        Some(Effect::ShowHelp)
    } else if same_chars(t, &config_path) {
        Some(Effect::ShowConfigPath)
    } else if same_chars(t, &config_edit) {
        Some(Effect::EditConfig)
    } else if t.len() > 6 && has_prefix(t, &theme) {
        Some(Effect::SetTheme(string_from(t, 6)))
    } else {
        None
    }
}

/// The first shortcut that `t` invokes: its position, and where its query starts in `t`.
fn find_shortcut_in(t: &Vec<char>, shortcuts: &Vec<Shortcut>) -> (r: Option<(usize, usize)>)
    ensures
        match r {
            Some((k, start)) => k < shortcuts.len() && start <= t.len() && find_shortcut(
                t@,
                shortcut_views(shortcuts@),
            ) == Some((shortcuts@[k as int].engine.url_template@, t@.skip(start as int))),
            None => find_shortcut(t@, shortcut_views(shortcuts@)) is None,
        },
{
    let ghost views = shortcut_views(shortcuts@);
    let mut k: usize = 0;
    proof {
        assert(views.skip(0) =~= views);
    }
    while k < shortcuts.len()
        invariant
            k <= shortcuts.len(),
            views == shortcut_views(shortcuts@),
            find_shortcut(t@, views) == find_shortcut(t@, views.skip(k as int)),
        decreases shortcuts.len() - k,
    {
        let mut p = chars_of(shortcuts[k].prefix.as_str());
        p.push(' ');
        proof {
            assert(views.skip(k as int).drop_first() =~= views.skip(k + 1));
            assert(views.skip(k as int)[0] == views[k as int]);
            assert(views[k as int] == (
                shortcuts@[k as int].prefix@,
                shortcuts@[k as int].engine.url_template@,
            ));
        }
        if has_prefix(t, &p) {
            return Some((k, p.len()));
        }
        k = k + 1;
    }
    None
}

impl AppState {
    /// The state for a config: every link of every section, nothing typed, all links
    /// listed and the first one selected.
    pub fn new(
        title: String,
        username: String,
        prompt_symbol: String,
        theme: Theme,
        sections: Vec<Section>,
        default_engine: SearchEngine,
        shortcuts: Vec<Shortcut>,
    ) -> (s: AppState)
        ensures
            s.title == title,
            s.username == username,
            s.prompt_symbol == prompt_symbol,
            s.theme == theme,
            s.sections == sections,
            s.default_engine == default_engine,
            s.shortcuts == shortcuts,
            s@.links == section_urls(sections@),
            s@.typed == Seq::<char>::empty(),
            s@.filtered == all_indices(s@.links.len()),
            s.selected == 0,
            !s.should_quit,
            s@.wf(),
    {
        let mut links: Vec<String> = Vec::new();
        let mut i: usize = 0;
        while i < sections.len()
            invariant
                i <= sections.len(),
                string_views(links@) == section_urls(sections@.take(i as int)),
            decreases sections.len() - i,
        {
            let section = &sections[i];
            let mut j: usize = 0;
            let ghost before = string_views(links@);
            while j < section.links.len()
                invariant
                    j <= section.links.len(),
                    string_views(links@) == before + link_urls(section.links@.take(j as int)),
                decreases section.links.len() - j,
            {
                let url = section.links[j].url.clone();
                let ghost prior = links@;
                links.push(url);
                proof {
                    assert(string_views(links@) =~= string_views(prior).push(section.links@[j as int].url@));
                    assert(link_urls(section.links@.take(j + 1)) =~= link_urls(
                        section.links@.take(j as int),
                    ).push(section.links@[j as int].url@));
                    assert(string_views(links@) =~= before + link_urls(section.links@.take(j + 1)));
                }
                j = j + 1;
            }
            proof {
                assert(section.links@.take(section.links.len() as int) =~= section.links@);
                assert(sections@.take(i + 1).drop_last() =~= sections@.take(i as int));
                assert(sections@.take(i + 1).last() == sections@[i as int]);
            }
            i = i + 1;
        }
        proof {
            assert(sections@.take(sections.len() as int) =~= sections@);
        }
        let mut filtered: Vec<usize> = Vec::new();
        let mut k: usize = 0;
        while k < links.len()
            invariant
                k <= links.len(),
                filtered@ == all_indices(k as nat),
            decreases links.len() - k,
        {
            filtered.push(k);
            proof {
                assert(filtered@ =~= all_indices((k + 1) as nat));
            }
            k = k + 1;
        }
        AppState {
            title,
            username,
            prompt_symbol,
            theme,
            sections,
            default_engine,
            shortcuts,
            links,
            typed: String::new(),
            filtered,
            selected: 0,
            should_quit: false,
        }
    }

    /// Recomputes the filtered list from the typed text and selects its first link.
    fn refilter(&mut self)
        ensures
            final(self)@ == old(self)@.retyped(old(self).typed@),
            final(self).title == old(self).title,
            final(self).username == old(self).username,
            final(self).prompt_symbol == old(self).prompt_symbol,
            final(self).theme == old(self).theme,
            final(self).sections == old(self).sections,
            final(self).default_engine == old(self).default_engine,
            final(self).shortcuts == old(self).shortcuts,
            final(self).links == old(self).links,
            final(self).typed == old(self).typed,
    {
        let f = filter_indices(self.typed.as_str(), &self.links);
        self.filtered = f;
        self.selected = 0;
    }

    /// The link the inline suggestion completes to, if there is one.
    pub fn suggestion(&self) -> (r: Option<usize>)
        requires
            self@.wf(),
        ensures
            r == self@.suggestion(),
    {
        if self.typed.as_str().is_empty() || self.filtered.len() == 0 {
            return None;
        }
        let i = self.filtered[0];
        let lt = lower_chars(self.links[i].as_str());
        let lq = lower_chars(self.typed.as_str());
        if has_prefix(&lt, &lq) {
            Some(i)
        } else {
            None
        }
    }

    /// The URL a search for `t` goes to, given the shortcut it invokes, if any.
    fn search_url_for(&self, t: &Vec<char>, shortcut: Option<(usize, usize)>) -> (r: String)
        requires
            match shortcut {
                Some((k, start)) => k < self.shortcuts.len() && start <= t.len() && find_shortcut(
                    t@,
                    shortcut_views(self.shortcuts@),
                ) == Some((self.shortcuts@[k as int].engine.url_template@, t@.skip(start as int))),
                None => find_shortcut(t@, shortcut_views(self.shortcuts@)) is None,
            },
        ensures
            r@ == search_target(t@, self.default_engine.url_template@, shortcut_views(self.shortcuts@)),
    {
        match shortcut {
            Some((k, start)) => {
                let q = string_from(t, start);
                self.shortcuts[k].engine.url_for(q.as_str())
            },
            None => {
                let q = string_from(t, 0);
                proof {
                    assert(t@.skip(0) =~= t@);
                }
                self.default_engine.url_for(q.as_str())
            },
        }
    }

    fn activate(&self) -> (r: Vec<Effect>)
        requires
            self@.wf(),
        ensures
            effect_views(r@) == activate_effects(
                self@,
                self.default_engine.url_template@,
                shortcut_views(self.shortcuts@),
            ),
    {
        let t = chars_of(self.typed.as_str());
        let mut out: Vec<Effect> = Vec::new();
        let command = command_effect(&t);
        if let Some(e) = command {
            out.push(e);
            proof {
                assert(effect_views(out@) =~= seq![command_of(t@)->0]);
            }
            return out;
        }
        if self.filtered.len() > 0 {
            if t.len() == 0 {
                let i = self.filtered[self.selected];
                out.push(Effect::Open(normalized_url(self.links[i].as_str())));
                proof {
                    assert(effect_views(out@) =~= seq![
                        EffectView::Open(normalize_url(self@.links[self@.filtered[self@.selected as int] as int])),
                    ]);
                }
            } else {
                let mut k: usize = 0;
                while k < self.filtered.len()
                    invariant
                        self@.wf(),
                        k <= self.filtered.len(),
                        effect_views(out@) == self@.filtered.take(k as int).map_values(
                            |i: usize| EffectView::Open(normalize_url(self@.links[i as int])),
                        ),
                    decreases self.filtered.len() - k,
                {
                    let i = self.filtered[k];
                    let ghost prior = out@;
                    out.push(Effect::Open(normalized_url(self.links[i].as_str())));
                    proof {
                        assert(self@.links[i as int] == self.links@[i as int]@);
                        assert(effect_views(out@) =~= effect_views(prior).push(
                            EffectView::Open(normalize_url(self@.links[i as int])),
                        ));
                        assert(effect_views(out@) =~= self@.filtered.take(k + 1).map_values(
                            |i: usize| EffectView::Open(normalize_url(self@.links[i as int])),
                        ));
                    }
                    k = k + 1;
                }
                proof {
                    assert(self@.filtered.take(self.filtered.len() as int) =~= self@.filtered);
                }
            }
            return out;
        }
        if t.len() == 0 {
            proof {
                assert(effect_views(out@) =~= Seq::<EffectView>::empty());
            }
            return out;
        }
        let shortcut = find_shortcut_in(&t, &self.shortcuts);
        if shortcut.is_none() && is_url_like(&t) {
            out.push(Effect::Open(normalized_url(self.typed.as_str())));
        } else {
            out.push(Effect::Open(self.search_url_for(&t, shortcut)));
        }
        proof {
            assert(effect_views(out@) =~= activate_effects(
                self@,
                self.default_engine.url_template@,
                shortcut_views(self.shortcuts@),
            ));
        }
        out
    }

    fn force_search(&self) -> (r: Vec<Effect>)
        ensures
            effect_views(r@) == effects_of(
                self@,
                self.default_engine.url_template@,
                shortcut_views(self.shortcuts@),
                Intent::ForceSearch,
            ),
    {
        let t = chars_of(self.typed.as_str());
        let mut out: Vec<Effect> = Vec::new();
        if t.len() > 0 {
            let shortcut = find_shortcut_in(&t, &self.shortcuts);
            out.push(Effect::Open(self.search_url_for(&t, shortcut)));
        }
        proof {
            assert(effect_views(out@) =~= effects_of(
                self@,
                self.default_engine.url_template@,
                shortcut_views(self.shortcuts@),
                Intent::ForceSearch,
            ));
        }
        out
    }
}

impl Default for AppState {
    /// `start-page`, with the default sections' links.
    fn default() -> (s: Self)
        ensures
            s.title@ == "start-page"@,
            s@.links == seq!["github.com"@, "docs.rs"@, "news.ycombinator.com"@],
            s@.typed == Seq::<char>::empty(),
            s@.filtered == seq![0usize, 1usize, 2usize],
            s.selected == 0,
            !s.should_quit,
            s@.wf(),
    {
        let sections = default_sections();
        let s = AppState::new(
            String::from_str("start-page"),
            String::new(),
            String::from_str("❯"),
            Theme::default(),
            sections,
            SearchEngine::default(),
            default_shortcuts(),
        );
        proof {
            let secs = s.sections@;
            assert(secs.drop_last() =~= Seq::<Section>::empty());
            assert(section_urls(secs.drop_last()) == Seq::<Seq<char>>::empty());
            assert(section_urls(secs) =~= link_urls(secs[0].links@));
            assert(s@.links =~= seq!["github.com"@, "docs.rs"@, "news.ycombinator.com"@]);
            assert(s@.filtered =~= seq![0usize, 1usize, 2usize]);
        }
        s
    }
}

/// Applies one intent: changes the state as [`StateView::step`] says and returns the
/// effects that [`effects_of`] says, for the host to carry out. Synchronous, no I/O.
pub fn reduce(state: &mut AppState, intent: Intent) -> (effects: Vec<Effect>)
    requires
        old(state)@.wf(),
    ensures
        final(state)@ == old(state)@.step(intent),
        final(state)@.wf(),
        effect_views(effects@) == effects_of(
            old(state)@,
            old(state).default_engine.url_template@,
            shortcut_views(old(state).shortcuts@),
            intent,
        ),
        final(state).title == old(state).title,
        final(state).username == old(state).username,
        final(state).prompt_symbol == old(state).prompt_symbol,
        final(state).theme == old(state).theme,
        final(state).sections == old(state).sections,
        final(state).default_engine == old(state).default_engine,
        final(state).shortcuts == old(state).shortcuts,
        final(state).links == old(state).links,
{
    proof {
        lemma_step_wf(old(state)@, intent);
    }
    let effects = match intent {
        Intent::Activate => state.activate(),
        Intent::ForceSearch => state.force_search(),
        _ => {
            let v: Vec<Effect> = Vec::new();
            proof {
                assert(effect_views(v@) =~= Seq::<EffectView>::empty());
            }
            v
        },
    };
    match intent {
        Intent::Char(c) => {
            string_push(&mut state.typed, c);
            state.refilter();
        },
        Intent::Backspace => {
            let popped = string_pop(&mut state.typed);
            if popped.is_some() {
                state.refilter();
            }
        },
        Intent::Next => {
            let n = state.filtered.len();
            state.selected = if n > 0 && state.selected < n - 1 { state.selected + 1 } else { 0 };
        },
        Intent::Prev => {
            let n = state.filtered.len();
            state.selected = if n == 0 {
                0
            } else if state.selected == 0 {
                n - 1
            } else {
                state.selected - 1
            };
        },
        Intent::AcceptSuggestion => {
            if let Some(i) = state.suggestion() {
                state.typed = state.links[i].clone();
                state.refilter();
            }
        },
        Intent::Quit => {
            state.should_quit = true;
        },
        Intent::Activate => {},
        Intent::ForceSearch => {},
    }
    proof {
        assert(final(state)@ =~= old(state)@.step(intent)) by {
        }
    }
    effects
}

} // verus!
