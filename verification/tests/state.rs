use start_page::state::{reduce, AppState, Effect, Intent};

fn state_with_links(links: Vec<&str>) -> AppState {
    let mut state = AppState::default();
    state.links = links.into_iter().map(str::to_string).collect();
    state.filtered = (0..state.links.len()).collect();
    state
}

fn apply(state: &mut AppState, intents: Vec<Intent>) -> Vec<Effect> {
    let mut all = Vec::new();
    for intent in intents {
        all.extend(reduce(state, intent));
    }
    all
}

fn type_str(state: &mut AppState, text: &str) {
    apply(state, text.chars().map(Intent::Char).collect());
}

fn opened(effects: &[Effect]) -> Vec<String> {
    effects
        .iter()
        .map(|e| match e {
            Effect::Open(u) => u.clone(),
            other => panic!("not an open: {other:?}"),
        })
        .collect()
}

fn three() -> AppState {
    state_with_links(vec!["github.com", "docs.rs", "news.ycombinator.com"])
}

#[test]
fn default_state_lists_every_link() {
    let state = AppState::default();
    assert_eq!(state.title, "start-page");
    assert_eq!(state.links, vec!["github.com", "docs.rs", "news.ycombinator.com"]);
    assert_eq!(state.filtered, vec![0, 1, 2]);
    assert_eq!(state.selected, 0);
    assert!(state.typed.is_empty());
    assert!(!state.should_quit);
}

#[test]
fn typing_narrows_the_list() {
    let mut state = three();
    type_str(&mut state, "git");
    assert_eq!(state.typed, "git");
    assert_eq!(state.filtered, vec![0]);
}

#[test]
fn filter_is_case_insensitive_and_skips_characters() {
    let mut state = three();
    type_str(&mut state, "NYC");
    assert_eq!(state.filtered, vec![2]);
    let mut state = three();
    type_str(&mut state, "o");
    assert_eq!(state.filtered, vec![0, 1, 2]);
}

#[test]
fn suggestion_is_the_top_match_when_it_begins_with_the_text() {
    let mut state = three();
    type_str(&mut state, "git");
    assert_eq!(state.suggestion(), Some(0));
    let mut state = three();
    type_str(&mut state, "hub");
    assert_eq!(state.filtered, vec![0]);
    assert_eq!(state.suggestion(), None);
}

#[test]
fn tab_accepts_the_ghost_suggestion() {
    let mut state = three();
    type_str(&mut state, "git");
    apply(&mut state, vec![Intent::AcceptSuggestion]);
    assert_eq!(state.typed, "github.com");
    assert_eq!(state.filtered, vec![0]);
}

#[test]
fn accept_without_suggestion_changes_nothing() {
    let mut state = three();
    apply(&mut state, vec![Intent::AcceptSuggestion]);
    assert!(state.typed.is_empty());
    assert_eq!(state.filtered, vec![0, 1, 2]);
}

#[test]
fn next_moves_selection_forward() {
    let mut state = three();
    apply(&mut state, vec![Intent::Next]);
    assert_eq!(state.selected, 1);
}

#[test]
fn next_wraps_past_the_last_link() {
    let mut state = three();
    apply(&mut state, vec![Intent::Next, Intent::Next, Intent::Next]);
    assert_eq!(state.selected, 0);
}

#[test]
fn prev_wraps_past_the_first_link() {
    let mut state = three();
    apply(&mut state, vec![Intent::Prev]);
    assert_eq!(state.selected, 2);
    apply(&mut state, vec![Intent::Next]);
    assert_eq!(state.selected, 0);
}

#[test]
fn unmatched_query_empties_the_list() {
    let mut state = three();
    type_str(&mut state, "zzz_no_match_zzz");
    assert!(state.filtered.is_empty());
    apply(&mut state, vec![Intent::Next, Intent::Prev]);
    assert_eq!(state.selected, 0);
}

#[test]
fn backspace_undoes_a_character() {
    let mut state = three();
    type_str(&mut state, "gi");
    let before = state.filtered.clone();
    type_str(&mut state, "z");
    assert!(state.filtered.is_empty());
    apply(&mut state, vec![Intent::Backspace]);
    assert_eq!(state.typed, "gi");
    assert_eq!(state.filtered, before);
    apply(&mut state, vec![Intent::Backspace, Intent::Backspace, Intent::Backspace]);
    assert!(state.typed.is_empty());
    assert_eq!(state.filtered, vec![0, 1, 2]);
}

#[test]
fn typing_resets_the_selection() {
    let mut state = three();
    apply(&mut state, vec![Intent::Next, Intent::Next]);
    type_str(&mut state, "o");
    assert_eq!(state.selected, 0);
}

#[test]
fn quit_sets_should_quit() {
    let mut state = three();
    let effects = apply(&mut state, vec![Intent::Quit]);
    assert!(effects.is_empty());
    assert!(state.should_quit);
}

#[test]
fn enter_with_nothing_typed_opens_the_selection() {
    let mut state = three();
    apply(&mut state, vec![Intent::Next]);
    let effects = apply(&mut state, vec![Intent::Activate]);
    assert_eq!(opened(&effects), vec!["https://docs.rs"]);
}

#[test]
fn enter_with_a_query_opens_all_filtered_links() {
    let mut state = three();
    type_str(&mut state, "o");
    let effects = apply(&mut state, vec![Intent::Activate]);
    assert_eq!(
        opened(&effects),
        vec!["https://github.com", "https://docs.rs", "https://news.ycombinator.com"]
    );
}

#[test]
fn links_with_a_scheme_keep_it() {
    let mut state = state_with_links(vec!["http://localhost:8080", "https://example.org"]);
    let effects = apply(&mut state, vec![Intent::Activate]);
    assert_eq!(opened(&effects), vec!["http://localhost:8080"]);
}

#[test]
fn enter_runs_config_path() {
    let mut state = state_with_links(vec!["github.com", "docs.rs"]);
    type_str(&mut state, "config path");
    let effects = apply(&mut state, vec![Intent::Activate]);
    assert!(matches!(effects.as_slice(), [Effect::ShowConfigPath]));
}

#[test]
fn enter_runs_config_edit() {
    let mut state = state_with_links(vec!["github.com", "docs.rs"]);
    type_str(&mut state, "config edit");
    let effects = apply(&mut state, vec![Intent::Activate]);
    assert!(matches!(effects.as_slice(), [Effect::EditConfig]));
}

#[test]
fn enter_runs_help() {
    let mut state = state_with_links(vec!["github.com", "docs.rs"]);
    type_str(&mut state, "help");
    let effects = apply(&mut state, vec![Intent::Activate]);
    assert!(matches!(effects.as_slice(), [Effect::ShowHelp]));
}

#[test]
fn enter_runs_theme_command() {
    let mut state = state_with_links(vec!["github.com", "docs.rs"]);
    type_str(&mut state, "theme foo");
    let effects = apply(&mut state, vec![Intent::Activate]);
    match effects.as_slice() {
        [Effect::SetTheme(name)] => assert_eq!(name, "foo"),
        other => panic!("unexpected {other:?}"),
    }
}

#[test]
fn shortcut_prefix_searches_its_engine() {
    let mut state = state_with_links(vec!["github.com", "docs.rs"]);
    type_str(&mut state, "s some bug");
    let effects = apply(&mut state, vec![Intent::Activate]);
    assert_eq!(opened(&effects), vec!["https://stackoverflow.com/search?q=some%20bug"]);
}

#[test]
fn bare_text_without_match_searches_the_default_engine() {
    let mut state = state_with_links(vec!["github.com", "docs.rs"]);
    type_str(&mut state, "rust & wasm?");
    let effects = apply(&mut state, vec![Intent::Activate]);
    assert_eq!(
        opened(&effects),
        vec!["https://www.google.com/search?q=rust%20%26%20wasm%3F"]
    );
}

#[test]
fn host_like_text_is_navigated_to() {
    let mut state = state_with_links(vec!["github.com", "docs.rs"]);
    type_str(&mut state, "example.org");
    let effects = apply(&mut state, vec![Intent::Activate]);
    assert_eq!(opened(&effects), vec!["https://example.org"]);
}

#[test]
fn force_search_skips_the_links() {
    let mut state = three();
    type_str(&mut state, "git");
    let effects = apply(&mut state, vec![Intent::ForceSearch]);
    assert_eq!(opened(&effects), vec!["https://www.google.com/search?q=git"]);
    assert_eq!(state.filtered, vec![0]);
}

#[test]
fn force_search_with_nothing_typed_does_nothing() {
    let mut state = three();
    assert!(apply(&mut state, vec![Intent::ForceSearch]).is_empty());
}

#[test]
fn query_is_percent_encoded_as_utf8() {
    let mut state = state_with_links(vec![]);
    type_str(&mut state, "東京");
    let effects = apply(&mut state, vec![Intent::Activate]);
    assert_eq!(
        opened(&effects),
        vec!["https://www.google.com/search?q=%E6%9D%B1%E4%BA%AC"]
    );
}

#[test]
fn any_intent_sequence_keeps_the_list_sound() {
    let links = vec!["github.com", "docs.rs", "news.ycombinator.com"];
    let mut state = three();
    let intents = vec![
        Intent::Char('o'), Intent::Next, Intent::Next, Intent::Next, Intent::Char('c'),
        Intent::Prev, Intent::AcceptSuggestion, Intent::Backspace, Intent::Activate,
        Intent::Char('Z'), Intent::Prev, Intent::Backspace, Intent::Backspace,
        Intent::Backspace, Intent::Backspace, Intent::Backspace, Intent::Backspace,
        Intent::Backspace, Intent::Backspace, Intent::Backspace, Intent::Backspace,
        Intent::Backspace, Intent::Backspace, Intent::Backspace, Intent::ForceSearch,
    ];
    for intent in intents {
        reduce(&mut state, intent);
        assert_eq!(state.links, links);
        assert!(state.filtered.iter().all(|&i| i < links.len()));
        assert!(state.filtered.windows(2).all(|w| w[0] < w[1]));
        if !state.filtered.is_empty() {
            assert!(state.selected < state.filtered.len());
        }
        if state.typed.is_empty() {
            assert_eq!(state.filtered, vec![0, 1, 2]);
        }
    }
}
