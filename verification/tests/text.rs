use aiken_tooling::text::{
    chars_of, clone_strings, decimal_text, ends_with, push_decimal, same_text, split_text,
    text_before,
};

#[test]
fn the_characters_of_a_text() {
    let v = chars_of("héllo");
    assert_eq!(v, vec!['h', 'é', 'l', 'l', 'o']);
    assert_eq!(chars_of(""), Vec::<char>::new());
}

#[test]
fn same_text_is_equality() {
    assert!(same_text("", ""));
    assert!(same_text("abc", "abc"));
    assert!(!same_text("abc", "abd"));
    assert!(!same_text("abc", "ab"));
    assert!(!same_text("é", "e"));
}

#[test]
fn split_gives_one_piece_more_than_separators() {
    assert_eq!(split_text("", ','), vec![""]);
    assert_eq!(split_text("a", ','), vec!["a"]);
    assert_eq!(split_text("a,b", ','), vec!["a", "b"]);
    assert_eq!(split_text("a,,b", ','), vec!["a", "", "b"]);
    assert_eq!(split_text(",a,", ','), vec!["", "a", ""]);
    assert_eq!(split_text("a/b/c", '/'), vec!["a", "b", "c"]);
}

#[test]
fn split_agrees_with_the_standard_library() {
    for text in ["", ",", "x,y,z", "no separator", ",,,", "é,ü"] {
        let expected: Vec<String> = text.split(',').map(|s| s.to_string()).collect();
        assert_eq!(split_text(text, ','), expected);
    }
}

#[test]
fn text_before_a_pattern() {
    assert_eq!(text_before("a/b.html", ".html"), "a/b");
    assert_eq!(text_before("a/b", ".html"), "a/b");
    assert_eq!(text_before(".html", ".html"), "");
    assert_eq!(text_before("a.html.html", ".html"), "a");
    assert_eq!(text_before("a.htm", ".html"), "a.htm");
    assert_eq!(text_before("", ".html"), "");
    assert_eq!(text_before("abc", ""), "");
}

#[test]
fn ends_with_is_about_the_end() {
    assert!(ends_with("x/bar", "bar"));
    assert!(ends_with("bar", "bar"));
    assert!(ends_with("bar", ""));
    assert!(!ends_with("barn", "bar"));
    assert!(!ends_with("ar", "bar"));
    assert!(!ends_with("bar/x", "bar"));
}

#[test]
fn numbers_in_base_ten() {
    assert_eq!(decimal_text(0), "0");
    assert_eq!(decimal_text(7), "7");
    assert_eq!(decimal_text(10), "10");
    assert_eq!(decimal_text(1700000000), "1700000000");
    assert_eq!(decimal_text(u64::MAX), "18446744073709551615");
    let mut s = "t=".to_string();
    push_decimal(&mut s, 905);
    assert_eq!(s, "t=905");
}

#[test]
fn copies_of_strings() {
    let names = vec!["a".to_string(), "b".to_string()];
    assert_eq!(clone_strings(&names), names);
}

#[test]
fn the_pieces_of_a_text_join_back_to_it() {
    for text in ["", "/", "a/b", "/a/b/", "//", "no separator", "é/ü"] {
        let pieces = split_text(text, '/');
        assert_eq!(pieces.join("/"), text);
        assert!(pieces.iter().all(|p| !p.contains('/')));
    }
}
