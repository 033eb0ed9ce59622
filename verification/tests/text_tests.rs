use document_generation_service::text::{
    chain_message, clone_bytes, clone_opt_string, clone_strings, concat2, concat3, decimal_i64,
    opt_str_matches, push_decimal_i64, push_decimal_u64, replace_char_in, str_eq, text_not_after,
};

#[test]
fn decimal_text_of_integers() {
    assert_eq!(decimal_i64(0), "0");
    assert_eq!(decimal_i64(7), "7");
    assert_eq!(decimal_i64(10), "10");
    assert_eq!(decimal_i64(-1), "-1");
    assert_eq!(decimal_i64(1234567890), "1234567890");
    assert_eq!(decimal_i64(i64::MAX), "9223372036854775807");
    assert_eq!(decimal_i64(i64::MIN), "-9223372036854775808");
}

#[test]
fn decimal_text_is_appended() {
    let mut out = String::from("id=");
    push_decimal_i64(&mut out, -42);
    assert_eq!(out, "id=-42");
    push_decimal_u64(&mut out, u64::MAX);
    assert_eq!(out, "id=-4218446744073709551615");
}

#[test]
fn decimal_text_agrees_with_std() {
    for n in [-1000i64, -99, -10, -9, 0, 9, 10, 99, 100, 101, 65535, 4294967296] {
        assert_eq!(decimal_i64(n), n.to_string());
    }
}

#[test]
fn concatenation_keeps_order() {
    assert_eq!(concat2("ab", "cd"), "abcd");
    assert_eq!(concat2("", ""), "");
    assert_eq!(concat3("a", "", "c"), "ac");
    assert_eq!(concat3("x", "/", "y"), "x/y");
}

#[test]
fn chained_message_has_colon_and_space() {
    assert_eq!(chain_message("Failed to save", "disk full"), "Failed to save: disk full");
    assert_eq!(chain_message("", ""), ": ");
}

#[test]
fn replace_char_rewrites_every_occurrence() {
    assert_eq!(replace_char_in("a b  c", ' ', '-'), "a-b--c");
    assert_eq!(replace_char_in("", ' ', '-'), "");
    assert_eq!(replace_char_in("abc", 'x', 'y'), "abc");
    assert_eq!(replace_char_in("é é", ' ', '-'), "é-é");
}

#[test]
fn text_equality() {
    assert!(str_eq("pdf", "pdf"));
    assert!(!str_eq("pdf", "PDF"));
    assert!(!str_eq("pdf", "pdfx"));
    assert!(str_eq("", ""));
}

#[test]
fn optional_filter_matches_when_absent_or_equal() {
    assert!(opt_str_matches(None, "srs"));
    assert!(opt_str_matches(Some("srs"), "srs"));
    assert!(!opt_str_matches(Some("srs"), "drd"));
}

#[test]
fn copies_hold_the_same_values() {
    let items = vec![String::from("a"), String::from(""), String::from("bc")];
    assert_eq!(clone_strings(&items), items);
    assert_eq!(clone_strings(&Vec::new()), Vec::<String>::new());
    assert_eq!(clone_bytes(&vec![1u8, 2, 255]), vec![1u8, 2, 255]);
    assert_eq!(clone_opt_string(&Some(String::from("x"))), Some(String::from("x")));
    assert_eq!(clone_opt_string(&None), None);
}

#[test]
fn texts_are_ordered_by_their_first_difference() {
    assert!(text_not_after("", ""));
    assert!(text_not_after("", "a"));
    assert!(!text_not_after("a", ""));
    assert!(text_not_after("html", "html"));
    assert!(text_not_after("htm", "html"));
    assert!(!text_not_after("html", "htm"));
    assert!(text_not_after("html", "markdown"));
    assert!(!text_not_after("pdf", "markdown"));
    assert!(text_not_after("Z", "a"));
    assert!(text_not_after("z", "é"));
    for (a, b) in [("abc", "abd"), ("x", "xy"), ("", "q"), ("same", "same"), ("b", "a")] {
        assert_eq!(text_not_after(a, b), a <= b);
        assert_eq!(text_not_after(b, a), b <= a);
    }
}
