//! Links, sections, search engines and the URLs built from them.

use vstd::prelude::*;
use vstd::string::StringExecFns;
use vstd::utf8::encode_utf8;
use crate::text::{chars_of, has_prefix, push_all, replace_all, replace_all_chars, starts_with, string_push};

verus! {

/// A named link.
#[derive(Debug, Clone)]
pub struct Link {
    pub name: String,
    pub url: String,
}

/// A titled group of links.
#[derive(Debug, Clone)]
pub struct Section {
    pub title: String,
    pub links: Vec<Link>,
}

/// A search engine, given as a URL template in which `{query}` stands for the query.
#[derive(Debug, Clone)]
pub struct SearchEngine {
    pub url_template: String,
}

/// A prefix that sends the rest of the prompt to another engine: `s some bug`.
#[derive(Debug, Clone)]
pub struct Shortcut {
    pub prefix: String,
    pub engine: SearchEngine,
}

/// The placeholder for the query in a URL template.
pub open spec fn query_placeholder() -> Seq<char> {
    seq!['{', 'q', 'u', 'e', 'r', 'y', '}']
}

/// The bytes that travel unencoded in a query: RFC 3986's unreserved set.
pub open spec fn is_unreserved(b: u8) -> bool {
    ||| (0x30 <= b && b <= 0x39)
    ||| (0x41 <= b && b <= 0x5a)
    ||| (0x61 <= b && b <= 0x7a)
    ||| b == 0x2d || b == 0x2e || b == 0x5f || b == 0x7e
}

/// The upper-case hex digit for a value below 16.
pub open spec fn upper_hex_char(n: u8) -> char {
    if n < 10 {
        ((48 + n) as u32) as char
    } else {
        ((55 + n) as u32) as char
    }
}

/// One byte, percent-encoded.
pub open spec fn percent_encode_byte(b: u8) -> Seq<char> {
    if is_unreserved(b) {
        seq![(b as u32) as char]
    } else {
        seq!['%', upper_hex_char(b / 16), upper_hex_char(b % 16)]
    }
}

/// A byte string, percent-encoded byte by byte.
pub open spec fn percent_encode(bytes: Seq<u8>) -> Seq<char>
    decreases bytes.len(),
{
    if bytes.len() == 0 {
        Seq::empty()
    } else {
        percent_encode(bytes.drop_last()) + percent_encode_byte(bytes.last())
    }
}

/// The URL that searches `query` with the engine whose template is `template`: the
/// query, UTF-8 and percent-encoded, put in place of every `{query}`.
pub open spec fn search_url(template: Seq<char>, query: Seq<char>) -> Seq<char> {
    replace_all(template, query_placeholder(), percent_encode(encode_utf8(query)))
}

pub open spec fn http_scheme() -> Seq<char> {
    seq!['h', 't', 't', 'p', ':', '/', '/']
}

pub open spec fn https_scheme() -> Seq<char> {
    seq!['h', 't', 't', 'p', 's', ':', '/', '/']
}

/// A link as a URL: kept when it names `http://` or `https://`, else given `https://`.
pub open spec fn normalize_url(u: Seq<char>) -> Seq<char> {
    if starts_with(u, http_scheme()) || starts_with(u, https_scheme()) {
        u
    } else {
        https_scheme() + u
    }
}

/// Text that reads as a host to go to rather than words to search for:
/// no space in it and a dot somewhere.
pub open spec fn looks_like_url(t: Seq<char>) -> bool {
    !t.contains(' ') && t.contains('.')
}

fn upper_hex_digit(n: u8) -> (c: char)
    requires
        n < 16,
    ensures
        c == upper_hex_char(n),
{
    let code: u8 = if n < 10 { 48 + n } else { 55 + n };
    code as char
}

/// The percent-encoding of the UTF-8 bytes of `s`.
pub fn percent_encode_str(s: &str) -> (r: String)
    ensures
        r@ == percent_encode(encode_utf8(s@)),
{
    let bytes = s.as_bytes();
    let mut out = String::new();
    let mut i: usize = 0;
    proof {
        assert(bytes@.take(0) =~= Seq::<u8>::empty());
    }
    while i < bytes.len()
        invariant
            i <= bytes.len(),
            bytes@ == encode_utf8(s@),
            out@ == percent_encode(bytes@.take(i as int)),
        decreases bytes.len() - i,
    {
        let b = bytes[i];
        let ghost before = out@;
        if (0x30 <= b && b <= 0x39) || (0x41 <= b && b <= 0x5a) || (0x61 <= b && b <= 0x7a) || b
            == 0x2d || b == 0x2e || b == 0x5f || b == 0x7e {
            string_push(&mut out, b as char);
        } else {
            string_push(&mut out, '%');
            string_push(&mut out, upper_hex_digit(b / 16));
            string_push(&mut out, upper_hex_digit(b % 16));
        }
        proof {
            assert(bytes@.take(i + 1).drop_last() =~= bytes@.take(i as int));
            assert(out@ =~= before + percent_encode_byte(b));
        }
        i = i + 1;
    }
    proof {
        assert(bytes@.take(bytes.len() as int) =~= bytes@);
    }
    out
}

/// The characters `{query}`.
pub fn query_placeholder_chars() -> (v: Vec<char>)
    ensures
        v@ == query_placeholder(),
{
    vec!['{', 'q', 'u', 'e', 'r', 'y', '}']
}

impl SearchEngine {
    /// The URL that searches for `query` with this engine.
    pub fn url_for(&self, query: &str) -> (r: String)
        ensures
            r@ == search_url(self.url_template@, query@),
    {
        let template = chars_of(self.url_template.as_str());
        let encoded = percent_encode_str(query);
        let encoded_chars = chars_of(encoded.as_str());
        replace_all_chars(&template, &query_placeholder_chars(), &encoded_chars)
    }
}

impl Default for SearchEngine {
    /// Google.
    fn default() -> (e: Self)
        ensures
            e.url_template@ == "https://www.google.com/search?q={query}"@,
    {
        SearchEngine { url_template: String::from_str("https://www.google.com/search?q={query}") }
    }
}

/// `u` as a URL to open, scheme added when missing.
pub fn normalized_url(u: &str) -> (r: String)
    ensures
        r@ == normalize_url(u@),
{
    let cs = chars_of(u);
    let http: Vec<char> = vec!['h', 't', 't', 'p', ':', '/', '/'];
    let https: Vec<char> = vec!['h', 't', 't', 'p', 's', ':', '/', '/'];
    if has_prefix(&cs, &http) || has_prefix(&cs, &https) {
        let mut out = String::new();
        push_all(&mut out, &cs);
        out
    } else {
        let mut out = String::new();
        push_all(&mut out, &https);
        push_all(&mut out, &cs);
        out
    }
}

/// Whether typed text reads as a host: no space, at least one dot.
pub fn is_url_like(t: &Vec<char>) -> (r: bool)
    ensures
        r == looks_like_url(t@),
{
    let mut has_dot = false;
    let mut i: usize = 0;
    while i < t.len()
        invariant
            i <= t.len(),
            forall|k: int| 0 <= k < i ==> t@[k] != ' ',
            has_dot == exists|k: int| 0 <= k < i && t@[k] == '.',
        decreases t.len() - i,
    {
        if t[i] == ' ' {
            proof {
                assert(t@.contains(' ')) by {
                    assert(t@[i as int] == ' ');
                }
            }
            return false;
        }
        if t[i] == '.' {
            has_dot = true;
        }
        i = i + 1;
    }
    proof {
        if has_dot {
            let k = choose|k: int| 0 <= k < i && t@[k] == '.';
            assert(t@.contains('.'));
        }
    }
    has_dot
}

/// The shortcuts that come with the default config: `s` searches StackOverflow.
pub open spec fn is_default_shortcuts(v: Seq<Shortcut>) -> bool {
    &&& v.len() == 1
    &&& v[0].prefix@ == "s"@
    &&& v[0].engine.url_template@ == "https://stackoverflow.com/search?q={query}"@
}

/// The sections that come with the default config: one `General` section.
pub open spec fn is_default_sections(v: Seq<Section>) -> bool {
    &&& v.len() == 1
    &&& v[0].title@ == "General"@
    &&& v[0].links.len() == 3
    &&& v[0].links[0].name@ == "GitHub"@
    &&& v[0].links[1].name@ == "docs.rs"@
    &&& v[0].links[2].name@ == "Hacker News"@
    &&& v[0].links[0].url@ == "github.com"@
    &&& v[0].links[1].url@ == "docs.rs"@
    &&& v[0].links[2].url@ == "news.ycombinator.com"@
}

pub fn default_shortcuts() -> (v: Vec<Shortcut>)
    ensures
        is_default_shortcuts(v@),
{
    let mut v: Vec<Shortcut> = Vec::new();
    v.push(
        Shortcut {
            prefix: String::from_str("s"),
            engine: SearchEngine {
                url_template: String::from_str("https://stackoverflow.com/search?q={query}"),
            },
        },
    );
    v
}

pub fn default_sections() -> (v: Vec<Section>)
    ensures
        is_default_sections(v@),
{
    let mut links: Vec<Link> = Vec::new();
    links.push(Link { name: String::from_str("GitHub"), url: String::from_str("github.com") });
    links.push(Link { name: String::from_str("docs.rs"), url: String::from_str("docs.rs") });
    links.push(
        Link {
            name: String::from_str("Hacker News"),
            url: String::from_str("news.ycombinator.com"),
        },
    );
    let mut v: Vec<Section> = Vec::new();
    v.push(Section { title: String::from_str("General"), links });
    v
}

} // verus!
