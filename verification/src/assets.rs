//! Which files of the browser bundle get a brotli-compressed sibling, and what it holds.

use std::io::Write;
use vstd::prelude::*;
use crate::text::{chars_of, push_all, string_push};

verus! {

/// The extension of a file name as `Path::extension` reads it: the text after the last
/// `.`, unless there is no `.` or the only one opens the name.
pub open spec fn extension_of(name: Seq<char>) -> Option<Seq<char>> {
    if exists|i: int| 0 < i < name.len() && name[i] == '.' {
        let i = choose|i: int|
            0 < i < name.len() && name[i] == '.' && forall|j: int| i < j < name.len() ==> name[j] != '.';
        Some(name.skip(i + 1))
    } else {
        None
    }
}

/// Whether a file is itself a compressed sibling (`*.br`), which gets none of its own.
pub fn is_precompressed(name: &str) -> (r: bool)
    ensures
        r == (extension_of(name@) == Some(seq!['b', 'r'])),
{
    let cs = chars_of(name);
    let n = cs.len();
    // Find the last dot.
    let mut i: usize = n;
    while i > 0 && cs[i - 1] != '.'
        invariant
            i <= n,
            n == cs.len(),
            forall|j: int| i <= j < n ==> cs@[j] != '.',
        decreases i,
    {
        i = i - 1;
    }
    // Now either i == 0 (no dot), or cs[i - 1] is the last dot.
    if i <= 1 {
        proof {
            assert(!exists|k: int| 0 < k < n && cs@[k] == '.') by {
                if i == 1 {
                    assert(forall|j: int| 1 <= j < n ==> cs@[j] != '.');
                }
            }
        }
        return false;
    }
    let dot = i - 1;
    let r = n - dot == 3 && cs[dot + 1] == 'b' && cs[dot + 2] == 'r';
    proof {
        assert(cs@[dot as int] == '.');
        let w = choose|k: int|
            0 < k < n && cs@[k] == '.' && forall|j: int| k < j < n ==> cs@[j] != '.';
        assert(0 < dot < n && cs@[dot as int] == '.' && forall|j: int| dot < j < n ==> cs@[j] != '.');
        assert(w == dot) by {
            if w < dot {
            } else if w > dot {
            }
        }
        if r {
            assert(cs@.skip(dot + 1) =~= seq!['b', 'r']);
        }
        if cs@.skip(dot + 1) == seq!['b', 'r'] {
            assert(cs@.skip(dot + 1).len() == 2);
            assert(cs@.skip(dot + 1)[0] == 'b');
            assert(cs@.skip(dot + 1)[1] == 'r');
        }
    }
    r
}

/// The brotli stream that `brotli::CompressorWriter` produces for `input` at quality 11
/// with a 22-bit window, written in one piece, flushed, then finished.
pub uninterp spec fn brotli_compressed(input: Seq<u8>) -> Seq<u8>;

/// Compresses bytes with brotli at quality 11 (the maximum; this runs once at build time)
/// and a 22-bit window.
///
/// Trusted: writes `input` into a `brotli::CompressorWriter` over a `Vec<u8>` with a
/// 4096-byte buffer, flushes it, and returns `into_inner()`, which finishes the stream.
/// The result is named by `brotli_compressed`; nothing more is claimed of it. Writing and
/// flushing into a `Vec` do not fail, so their `Result`s carry nothing.
#[verifier::external_body]
pub fn brotli_compress(input: &[u8]) -> (r: Vec<u8>)
    ensures
        r@ == brotli_compressed(input@),
{
    let mut writer = brotli::CompressorWriter::new(Vec::new(), 4096, 11, 22);
    let _ = writer.write_all(input);
    let _ = writer.flush();
    writer.into_inner()
}

/// The name of a file's compressed sibling: the name with `.br` appended.
pub open spec fn sibling_name(name: Seq<char>) -> Seq<char> {
    name + seq!['.', 'b', 'r']
}

/// The name of the compressed sibling a bundle file named `name` gets: none when the file
/// is itself a `.br` sibling, else `<name>.br`.
pub fn sibling_of(name: &str) -> (r: Option<String>)
    ensures
        extension_of(name@) == Some(seq!['b', 'r']) ==> r is None,
        extension_of(name@) != Some(seq!['b', 'r']) ==> (r matches Some(n) && n@ == sibling_name(
            name@,
        )),
{
    if is_precompressed(name) {
        return None;
    }
    let mut sibling = String::new();
    push_all(&mut sibling, &chars_of(name));
    string_push(&mut sibling, '.');
    string_push(&mut sibling, 'b');
    string_push(&mut sibling, 'r');
    proof {
        assert(sibling@ =~= sibling_name(name@));
    }
    Some(sibling)
}

/// What to write beside a bundle file named `name` holding `contents`: nothing when the
/// file is itself a `.br` sibling, else `<name>.br` holding the brotli-compressed contents.
pub fn brotli_sibling(name: &str, contents: &[u8]) -> (r: Option<(String, Vec<u8>)>)
    ensures
        extension_of(name@) == Some(seq!['b', 'r']) ==> r is None,
        extension_of(name@) != Some(seq!['b', 'r']) ==> (r matches Some((n, bytes)) && n@
            == sibling_name(name@) && bytes@ == brotli_compressed(contents@)),
{
    match sibling_of(name) {
        Some(sibling) => Some((sibling, brotli_compress(contents))),
        None => None,
    }
}

/// A compressed sibling is itself skipped: any non-empty name with `.br` appended has the
/// extension `br`, so a second pass over the bundle writes no `*.br.br` file.
pub proof fn lemma_sibling_is_precompressed(name: Seq<char>)
    requires
        name.len() > 0,
    ensures
        extension_of(sibling_name(name)) == Some(seq!['b', 'r']),
{
    let s = sibling_name(name);
    let d = name.len() as int;
    assert(s[d] == '.');
    assert(s[d + 1] == 'b' && s[d + 2] == 'r');
    assert(0 < d < s.len() && s[d] == '.');
    let i = choose|i: int| 0 < i < s.len() && s[i] == '.' && forall|j: int| i < j < s.len() ==> s[j] != '.';
    assert(0 < d < s.len() && s[d] == '.' && forall|j: int| d < j < s.len() ==> s[j] != '.');
    assert(i == d) by {
        if i < d {
            assert(s[d] != '.');
        } else if i > d {
            assert(s[i] != '.');
        }
    }
    assert(s.skip(d + 1) =~= seq!['b', 'r']);
}

} // verus!
