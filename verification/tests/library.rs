//! Basic behaviour of the library: the query compiles, trivial inputs.

use formatter_kotlin::{build_language, DEFAULT_INDENT};

#[test]
fn query_compiles() {
    build_language(DEFAULT_INDENT.to_owned()).expect("kotlin.scm compiles against the grammar");
}

#[test]
fn empty_file_is_blank_line() {
    let out = formatter_kotlin::format("").expect("format empty");
    assert_eq!(out, "\n");
}

#[test]
fn trailing_newline_is_added() {
    let out = formatter_kotlin::format("val x = 1").expect("format");
    assert!(out.ends_with('\n'));
}
