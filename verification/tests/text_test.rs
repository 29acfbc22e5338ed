//! Text, numbers and tables.

use yidika::scan::{
    contains, ends_with, find, first_word_of, join, lines, parse_number, replace_char, same_word, split,
    starts_with, strip_prefix, strip_suffix, to_identifier, trim,
};
use yidika::syntax::ast::TypeExpr;
use yidika::text::{byte_count, cat3, dec_text, int_text, owned, repeat_text};

#[test]
fn numbers_read_back() {
    for n in [0u64, 7, 10, 4096, u64::MAX] {
        assert_eq!(dec_text(n as u128), n.to_string());
        assert_eq!(parse_number(&dec_text(n as u128), u64::MAX), Some(n));
    }
    assert_eq!(int_text(i64::MIN), i64::MIN.to_string());
    assert_eq!(int_text(-5), "-5");
    assert_eq!(parse_number("18446744073709551616", u64::MAX), None);
    assert_eq!(parse_number("+12", u64::MAX), Some(12));
    assert_eq!(parse_number("", u64::MAX), None);
    assert_eq!(parse_number("1x", u64::MAX), None);
    assert_eq!(parse_number("300", 255), None);
}

#[test]
fn pieces_join_again() {
    for s in ["", ",", "a,b,,c", "no separator"] {
        assert_eq!(split(s, ","), s.split(',').map(|x| x.to_string()).collect::<Vec<_>>());
        assert_eq!(join(&split(s, ","), ","), s);
    }
}

#[test]
fn lines_are_cut_at_line_feeds() {
    for s in ["", "a", "a\n", "a\r\nb", "a\n\nb\n", "\n"] {
        assert_eq!(lines(s), s.lines().map(|x| x.to_string()).collect::<Vec<_>>());
    }
}

#[test]
fn searching() {
    assert!(starts_with("abc", "ab") && !starts_with("abc", "b"));
    assert!(ends_with("abc", "bc") && !ends_with("c", "bc"));
    assert_eq!(strip_prefix("%x", "%"), Some("x".to_string()));
    assert_eq!(strip_prefix("x", "%"), None);
    assert_eq!(strip_suffix("x*", "*"), Some("x".to_string()));
    assert_eq!(find("éab", "ab"), Some(1));
    assert_eq!(find("ab", "c"), None);
    assert!(contains("abc", "") && contains("abc", "bc") && !contains("abc", "cb"));
}

#[test]
fn rewriting() {
    assert_eq!(replace_char("a.b.c", '.', "::"), "a::b::c");
    assert_eq!(to_identifier("a-b é1_"), "a_b_é1_");
    assert_eq!(trim(" \t x y \n"), "x y");
    assert_eq!(first_word_of("  i64 x", "?"), "i64");
    assert_eq!(first_word_of("   ", "?"), "?");
    assert!(same_word("TRUE", "true") && !same_word("tru", "true"));
}

#[test]
fn building_text() {
    assert_eq!(owned("é"), "é");
    assert_eq!(cat3("a", "é", "c"), "aéc");
    assert_eq!(repeat_text("ab", 3), "ababab");
    assert_eq!(repeat_text("ab", 0), "");
    assert_eq!(byte_count("aé€😀"), 10);
}

#[test]
fn types_are_written_out() {
    assert_eq!(TypeExpr::Int(0).to_text(), "int(0)");
    assert_eq!(TypeExpr::Str.to_text(), "str");
    assert_eq!(TypeExpr::Bool.to_text(), "bool");
}
