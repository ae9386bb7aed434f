//! The config schema, its defaults, and the import of Excalith `settings.json`.
//!
//! Reading and writing files, and parsing YAML or JSON, happen in the host; this module
//! holds what the parsed values mean.

use vstd::prelude::*;
use vstd::string::StringExecFns;
use crate::links::{
    default_sections, default_shortcuts, is_default_sections, is_default_shortcuts,
    query_placeholder, query_placeholder_chars, SearchEngine, Section, Shortcut,
};
use crate::state::AppState;
use crate::text::{chars_of, replace_all, replace_all_chars};
use crate::theme::Theme;

verus! {

/// How the prompt line looks.
#[derive(Debug, Clone)]
pub struct PromptConfig {
    pub placeholder: String,
    pub symbol: String,
    pub user_color: String,
    pub host_color: String,
    pub prompt_color: String,
}

impl PromptConfig {
    pub open spec fn is_default(&self) -> bool {
        &&& self.placeholder@ == "command..."@
        &&& self.symbol@ == "❯"@
        &&& self.user_color@ == "green"@
        &&& self.host_color@ == "magenta"@
        &&& self.prompt_color@ == "magenta"@
    }
}

impl Default for PromptConfig {
    fn default() -> (p: Self)
        ensures
            p.is_default(),
    {
        PromptConfig {
            placeholder: String::from_str("command..."),
            symbol: String::from_str("❯"),
            user_color: String::from_str("green"),
            host_color: String::from_str("magenta"),
            prompt_color: String::from_str("magenta"),
        }
    }
}

/// The whole config file.
#[derive(Debug, Clone)]
pub struct Config {
    pub username: String,
    pub title: String,
    pub theme: Theme,
    pub prompt: PromptConfig,
    pub sections: Vec<Section>,
    /// Default search engine for bare text with no filter match.
    pub default_engine: SearchEngine,
    /// Configured shortcut prefixes, e.g. `s some bug` -> StackOverflow search.
    pub shortcuts: Vec<Shortcut>,
}

pub open spec fn is_default_theme(t: Theme) -> bool {
    t.name@ == "Default"@ && t.is_default_palette()
}

pub open spec fn is_default_engine(e: SearchEngine) -> bool {
    e.url_template@ == "https://www.google.com/search?q={query}"@
}

impl Config {
    pub open spec fn default_username() -> Seq<char> {
        "excalith"@
    }

    pub open spec fn default_title() -> Seq<char> {
        "Excalith Start Page"@
    }
}

impl Default for Config {
    fn default() -> (c: Self)
        ensures
            c.username@ == Config::default_username(),
            c.title@ == Config::default_title(),
            is_default_theme(c.theme),
            c.prompt.is_default(),
            is_default_sections(c.sections@),
            is_default_engine(c.default_engine),
            is_default_shortcuts(c.shortcuts@),
    {
        Config {
            username: String::from_str("excalith"),
            title: String::from_str("Excalith Start Page"),
            theme: Theme::default(),
            prompt: PromptConfig::default(),
            sections: default_sections(),
            default_engine: SearchEngine::default(),
            shortcuts: default_shortcuts(),
        }
    }
}

/// An Excalith `settings.json`, as parsed: every part may be missing.
pub struct ExcalithSettings {
    pub username: Option<String>,
    pub title: Option<String>,
    pub theme: Option<Theme>,
    pub prompt: Option<PromptConfig>,
    pub search: Option<ExcalithSearch>,
    pub sections: Option<ExcalithSections>,
}

/// The `search` part of an Excalith `settings.json`.
pub struct ExcalithSearch {
    pub default: Option<String>,
    pub shortcuts: Vec<ExcalithShortcut>,
}

/// One Excalith search shortcut; `{}` in its URL stands for the query.
pub struct ExcalithShortcut {
    pub alias: String,
    pub url: String,
}

/// The `sections` part of an Excalith `settings.json`.
pub struct ExcalithSections {
    pub list: Vec<Section>,
}

/// Excalith's query placeholder, `{}`.
pub open spec fn excalith_placeholder() -> Seq<char> {
    seq!['{', '}']
}

/// An Excalith URL template in this config's notation: `{}` becomes `{query}`.
pub open spec fn convert_template(url: Seq<char>) -> Seq<char> {
    replace_all(url, excalith_placeholder(), query_placeholder())
}

/// `url` with every `{}` replaced by `{query}`.
pub fn convert_excalith_template(url: &str) -> (r: String)
    ensures
        r@ == convert_template(url@),
{
    let cs = chars_of(url);
    let braces: Vec<char> = vec!['{', '}'];
    replace_all_chars(&cs, &braces, &query_placeholder_chars())
}

impl Config {
    /// The config that an Excalith `settings.json` stands for: each part that is present
    /// replaces the default, and search URLs have `{}` rewritten to `{query}`.
    pub fn from_excalith(raw: ExcalithSettings) -> (c: Config)
        ensures
            c.username@ == match raw.username {
                Some(u) => u@,
                None => Config::default_username(),
            },
            c.title@ == match raw.title {
                Some(t) => t@,
                None => Config::default_title(),
            },
            raw.theme is Some ==> c.theme == raw.theme->0,
            raw.theme is None ==> is_default_theme(c.theme),
            raw.prompt is Some ==> c.prompt == raw.prompt->0,
            raw.prompt is None ==> c.prompt.is_default(),
            raw.sections is Some ==> c.sections == raw.sections->0.list,
            raw.sections is None ==> is_default_sections(c.sections@),
            (raw.search matches Some(s) && s.default is Some) ==> c.default_engine.url_template@
                == convert_template(raw.search->0.default->0@),
            !(raw.search matches Some(s) && s.default is Some) ==> is_default_engine(
                c.default_engine,
            ),
            raw.search is None ==> is_default_shortcuts(c.shortcuts@),
            raw.search matches Some(s) ==> {
                &&& c.shortcuts.len() == s.shortcuts.len()
                &&& forall|k: int|
                    0 <= k < c.shortcuts.len() ==> {
                        &&& (#[trigger] c.shortcuts@[k]).prefix@ == s.shortcuts@[k].alias@
                        &&& c.shortcuts@[k].engine.url_template@ == convert_template(
                            s.shortcuts@[k].url@,
                        )
                    }
            },
    {
        let def = Config::default();
        let ExcalithSettings { username, title, theme, prompt, search, sections } = raw;
        let default_engine = match &search {
            Some(s) => match &s.default {
                Some(u) => SearchEngine { url_template: convert_excalith_template(u.as_str()) },
                None => def.default_engine,
            },
            None => def.default_engine,
        };
        let shortcuts = match search {
            Some(s) => {
                let mut out: Vec<Shortcut> = Vec::new();
                let mut k: usize = 0;
                while k < s.shortcuts.len()
                    invariant
                        k <= s.shortcuts.len(),
                        out.len() == k,
                        forall|m: int|
                            0 <= m < k ==> {
                                &&& (#[trigger] out@[m]).prefix@ == s.shortcuts@[m].alias@
                                &&& out@[m].engine.url_template@ == convert_template(
                                    s.shortcuts@[m].url@,
                                )
                            },
                    decreases s.shortcuts.len() - k,
                {
                    let item = &s.shortcuts[k];
                    out.push(
                        Shortcut {
                            prefix: item.alias.clone(),
                            engine: SearchEngine {
                                url_template: convert_excalith_template(item.url.as_str()),
                            },
                        },
                    );
                    k = k + 1;
                }
                out
            },
            None => def.shortcuts,
        };
        Config {
            username: match username {
                Some(u) => u,
                None => def.username,
            },
            title: match title {
                Some(t) => t,
                None => def.title,
            },
            theme: match theme {
                Some(t) => t,
                None => def.theme,
            },
            prompt: match prompt {
                Some(p) => p,
                None => def.prompt,
            },
            sections: match sections {
                Some(s) => s.list,
                None => def.sections,
            },
            default_engine,
            shortcuts,
        }
    }
}

impl AppState {
    /// The state a config starts the application in.
    pub fn from_config(c: Config) -> (s: AppState)
        ensures
            s.title == c.title,
            s.username == c.username,
            s.prompt_symbol == c.prompt.symbol,
            s.theme == c.theme,
            s.sections == c.sections,
            s.default_engine == c.default_engine,
            s.shortcuts == c.shortcuts,
            s@.links == crate::state::section_urls(c.sections@),
            s@.typed == Seq::<char>::empty(),
            s@.filtered == crate::state::all_indices(s@.links.len()),
            s.selected == 0,
            !s.should_quit,
            s@.wf(),
    {
        AppState::new(
            c.title,
            c.username,
            c.prompt.symbol,
            c.theme,
            c.sections,
            c.default_engine,
            c.shortcuts,
        )
    }
}

} // verus!
