use ntf::text::{chars_of, fill, join, push_decimal, push_signed, same_text, substitute};

#[test]
fn substitute_replaces_every_occurrence() {
    assert_eq!(substitute("{title} and {title}", "{title}", "T"), "T and T");
    assert_eq!(substitute("{title}{title}{title}", "{title}", "ab"), "ababab");
    assert_eq!(substitute("x{title}", "{title}", ""), "x");
}

#[test]
fn substitute_leaves_other_text_alone() {
    assert_eq!(substitute("no placeholder here", "{title}", "T"), "no placeholder here");
    assert_eq!(substitute("{title", "{title}", "T"), "{title");
    assert_eq!(substitute("{titl{title}e}", "{title}", "T"), "{titlTe}");
    assert_eq!(substitute("", "{title}", "T"), "");
}

#[test]
fn substitute_goes_from_left_to_right_without_overlap() {
    assert_eq!(substitute("aaa", "aa", "b"), "ba");
    assert_eq!(substitute("aaaa", "aa", "b"), "bb");
}

#[test]
fn substitute_with_an_empty_pattern_changes_nothing() {
    assert_eq!(substitute("abc", "", "X"), "abc");
}

#[test]
fn substitute_agrees_with_the_standard_replace() {
    let samples = ["{title}", "a{title}b{message}c", "{{title}}", "{title}{title", "héllo {title} wörld"];
    for s in samples {
        assert_eq!(substitute(s, "{title}", "é{x}"), s.replace("{title}", "é{x}"));
    }
}

#[test]
fn fill_sets_title_then_message() {
    assert_eq!(fill("{title}: {message}", "T", "M"), "T: M");
    assert_eq!(fill("{message}{title}{message}", "T", "M"), "MTM");
    assert_eq!(fill("plain", "T", "M"), "plain");
}

#[test]
fn fill_substitutes_the_message_into_what_the_title_brought() {
    assert_eq!(fill("{title}", "<{message}>", "M"), "<M>");
    assert_eq!(fill("{message}", "T", "<{title}>"), "<{title}>");
}

#[test]
fn decimal_of_unsigned_numbers() {
    let cases: [(u64, &str); 6] = [
        (0, "0"),
        (7, "7"),
        (10, "10"),
        (909, "909"),
        (1234567890, "1234567890"),
        (u64::MAX, "18446744073709551615"),
    ];
    for (n, expected) in cases {
        let mut out = String::from("t=");
        push_decimal(&mut out, n);
        assert_eq!(out, format!("t={}", expected));
    }
}

#[test]
fn decimal_of_signed_numbers() {
    let cases: [(i32, &str); 6] = [
        (0, "0"),
        (1, "1"),
        (-1, "-1"),
        (255, "255"),
        (i32::MAX, "2147483647"),
        (i32::MIN, "-2147483648"),
    ];
    for (v, expected) in cases {
        let mut out = String::new();
        push_signed(&mut out, v);
        assert_eq!(out, expected);
    }
}

#[test]
fn join_puts_the_separator_between_words() {
    assert_eq!(join(&vec![], " "), "");
    assert_eq!(join(&vec!["echo"], " "), "echo");
    assert_eq!(join(&vec!["echo", "hi"], " "), "echo hi");
    assert_eq!(join(&vec!["a", "", "b"], ", "), "a, , b");
}

#[test]
fn chars_and_equality_of_text() {
    assert_eq!(chars_of("a秒b"), vec!['a', '秒', 'b']);
    assert!(same_text("http", "http"));
    assert!(!same_text("http", "https"));
    assert!(!same_text("http", "httq"));
    assert!(same_text("", ""));
}
