use start_page::assets::is_precompressed;

#[test]
fn only_br_extensions_count_as_compressed() {
    assert!(is_precompressed("app.wasm.br"));
    assert!(is_precompressed("a.br"));
    assert!(is_precompressed("..br"));
    assert!(!is_precompressed(".br"));
    assert!(!is_precompressed("app.wasm"));
    assert!(!is_precompressed("br"));
    assert!(!is_precompressed("x.brr"));
    assert!(!is_precompressed("x.br.gz"));
    assert!(!is_precompressed(""));
}

use start_page::assets::{brotli_compress, brotli_sibling};
use std::io::Read;

fn decompress(bytes: &[u8]) -> Vec<u8> {
    let mut out = Vec::new();
    brotli::Decompressor::new(bytes, 4096).read_to_end(&mut out).unwrap();
    out
}

#[test]
fn bundle_files_get_a_compressed_sibling() {
    let input = b"<html>hello hello hello hello</html>".to_vec();
    let (name, bytes) = brotli_sibling("index.html", &input).unwrap();
    assert_eq!(name, "index.html.br");
    assert_ne!(bytes, input);
    assert_eq!(decompress(&bytes), input);
    assert_eq!(bytes, brotli_compress(&input));
}

#[test]
fn compressed_siblings_get_none() {
    assert!(brotli_sibling("app.wasm.br", b"x").is_none());
    let (name, bytes) = brotli_sibling(".br", b"").unwrap();
    assert_eq!(name, ".br.br");
    assert_eq!(decompress(&bytes), Vec::<u8>::new());
}

#[test]
fn sibling_names() {
    assert_eq!(start_page::assets::sibling_of("app.wasm").as_deref(), Some("app.wasm.br"));
    assert_eq!(start_page::assets::sibling_of("app.wasm.br"), None);
}

#[test]
fn a_second_pass_writes_nothing_new() {
    let (name, _) = brotli_sibling("index.html", b"abc").unwrap();
    assert!(brotli_sibling(&name, b"whatever").is_none());
    let (again, bytes) = brotli_sibling("index.html", b"abc").unwrap();
    assert_eq!(again, name);
    assert_eq!(decompress(&bytes), b"abc".to_vec());
}
