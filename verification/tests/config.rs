use start_page::config::{
    convert_excalith_template, Config, ExcalithSearch, ExcalithSections, ExcalithSettings,
    ExcalithShortcut, PromptConfig,
};
use start_page::links::{Link, SearchEngine, Section};
use start_page::state::AppState;
use start_page::theme::{Color, Theme};

fn empty_settings() -> ExcalithSettings {
    ExcalithSettings { username: None, title: None, theme: None, prompt: None, search: None, sections: None }
}

#[test]
fn default_config() {
    let c = Config::default();
    assert_eq!(c.username, "excalith");
    assert_eq!(c.title, "Excalith Start Page");
    assert_eq!(c.prompt.symbol, "❯");
    assert_eq!(c.prompt.placeholder, "command...");
    assert_eq!(c.sections.len(), 1);
    assert_eq!(c.sections[0].links.len(), 3);
    assert_eq!(c.default_engine.url_template, "https://www.google.com/search?q={query}");
    assert_eq!(c.shortcuts[0].prefix, "s");
}

#[test]
fn empty_settings_import_as_defaults() {
    let c = Config::from_excalith(empty_settings());
    let d = Config::default();
    assert_eq!(c.username, d.username);
    assert_eq!(c.title, d.title);
    assert_eq!(c.theme.name, "Default");
    assert_eq!(c.default_engine.url_template, d.default_engine.url_template);
    assert_eq!(c.shortcuts.len(), 1);
}

#[test]
fn imported_parts_replace_defaults() {
    let mut theme = Theme::default();
    theme.name = "Dracula".to_string();
    theme.red = Color::new(0xff, 0x55, 0x55);
    let raw = ExcalithSettings {
        username: Some("Excalith".to_string()),
        title: Some("My Page".to_string()),
        theme: Some(theme),
        prompt: Some(PromptConfig {
            placeholder: "type".to_string(),
            symbol: ">".to_string(),
            user_color: "red".to_string(),
            host_color: "blue".to_string(),
            prompt_color: "cyan".to_string(),
        }),
        search: Some(ExcalithSearch {
            default: Some("https://duckduckgo.com/?q={}".to_string()),
            shortcuts: vec![ExcalithShortcut { alias: "r".to_string(), url: "https://reddit.com/r/{}/{}".to_string() }],
        }),
        sections: Some(ExcalithSections {
            list: vec![Section {
                title: "General".to_string(),
                links: vec![Link { name: "Portfolio".to_string(), url: "https://cancellek.com".to_string() }],
            }],
        }),
    };
    let c = Config::from_excalith(raw);
    assert_eq!(c.username, "Excalith");
    assert_eq!(c.title, "My Page");
    assert_eq!(c.theme.name, "Dracula");
    assert_eq!(c.theme.red, Color::new(0xff, 0x55, 0x55));
    assert_eq!(c.prompt.symbol, ">");
    assert_eq!(c.default_engine.url_template, "https://duckduckgo.com/?q={query}");
    assert_eq!(c.shortcuts.len(), 1);
    assert_eq!(c.shortcuts[0].prefix, "r");
    assert_eq!(c.shortcuts[0].engine.url_template, "https://reddit.com/r/{query}/{query}");
    assert_eq!(c.sections[0].title, "General");
    assert_eq!(c.sections[0].links[0].name, "Portfolio");
    assert_eq!(c.sections[0].links[0].url, "https://cancellek.com");
}

#[test]
fn search_without_default_keeps_default_engine_but_takes_shortcuts() {
    let mut raw = empty_settings();
    raw.search = Some(ExcalithSearch { default: None, shortcuts: vec![] });
    let c = Config::from_excalith(raw);
    assert_eq!(c.default_engine.url_template, "https://www.google.com/search?q={query}");
    assert!(c.shortcuts.is_empty());
}

#[test]
fn template_conversion() {
    assert_eq!(convert_excalith_template("a{}b{}"), "a{query}b{query}");
    assert_eq!(convert_excalith_template("{{}}"), "{{query}}");
    assert_eq!(convert_excalith_template("no placeholder"), "no placeholder");
    assert_eq!(convert_excalith_template("{"), "{");
}

#[test]
fn app_state_from_config_flattens_sections() {
    let mut c = Config::default();
    c.sections.push(Section {
        title: "Work".to_string(),
        links: vec![Link { name: "CI".to_string(), url: "ci.example.org".to_string() }],
    });
    c.default_engine = SearchEngine { url_template: "https://x/?q={query}".to_string() };
    let s = AppState::from_config(c);
    assert_eq!(s.title, "Excalith Start Page");
    assert_eq!(s.username, "excalith");
    assert_eq!(s.prompt_symbol, "❯");
    assert_eq!(s.links, vec!["github.com", "docs.rs", "news.ycombinator.com", "ci.example.org"]);
    assert_eq!(s.filtered, vec![0, 1, 2, 3]);
    assert_eq!(s.default_engine.url_template, "https://x/?q={query}");
}
