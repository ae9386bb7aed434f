use start_page::links::{default_sections, default_shortcuts, normalized_url, percent_encode_str, SearchEngine};

#[test]
fn percent_encoding_keeps_unreserved_only() {
    assert_eq!(percent_encode_str("aZ09-._~"), "aZ09-._~");
    assert_eq!(percent_encode_str("a b/c?d=e&f"), "a%20b%2Fc%3Fd%3De%26f");
    assert_eq!(percent_encode_str("é"), "%C3%A9");
    assert_eq!(percent_encode_str(""), "");
}

#[test]
fn search_url_fills_every_placeholder() {
    let e = SearchEngine { url_template: "https://e/{query}?q={query}".to_string() };
    assert_eq!(e.url_for("a b"), "https://e/a%20b?q=a%20b");
    let plain = SearchEngine { url_template: "https://e/".to_string() };
    assert_eq!(plain.url_for("x"), "https://e/");
}

#[test]
fn normalized_url_adds_https_only_when_missing() {
    assert_eq!(normalized_url("docs.rs"), "https://docs.rs");
    assert_eq!(normalized_url("http://x"), "http://x");
    assert_eq!(normalized_url("https://x"), "https://x");
    assert_eq!(normalized_url("httpx://y"), "https://httpx://y");
}

#[test]
fn defaults() {
    assert_eq!(default_shortcuts()[0].engine.url_template, "https://stackoverflow.com/search?q={query}");
    let s = default_sections();
    assert_eq!(s[0].title, "General");
    assert_eq!(s[0].links[2].url, "news.ycombinator.com");
}

#[test]
fn default_link_names() {
    let s = default_sections();
    let names: Vec<&str> = s[0].links.iter().map(|l| l.name.as_str()).collect();
    assert_eq!(names, vec!["GitHub", "docs.rs", "Hacker News"]);
}
