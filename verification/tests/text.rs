use agentic_server::json::{find, remove_member, set_member, JsonValue};
use agentic_server::parts::{contains, split, split_lines, strip_prefix};
use agentic_server::text::{byte_len, cleaned_copy, is_keyword, same_text};

#[test]
fn white_space_is_what_the_standard_library_trims() {
    for c in (0..=0x10ffff_u32).filter_map(char::from_u32) {
        let kept = cleaned_copy(Some(format!("{c}x{c}"))).expect("not blank");
        if c.is_whitespace() {
            assert_eq!(kept, "x");
        } else {
            assert_eq!(kept, format!("{c}x{c}"));
        }
    }
}

#[test]
fn keywords_fold_ascii_case_alone() {
    assert!(is_keyword(" OTLP\t", "otlp"));
    assert!(!is_keyword("\u{d6}", "\u{f6}"));
    assert!(!is_keyword("otlp,console", "otlp"));
}

#[test]
fn texts_are_compared_character_by_character() {
    assert!(same_text("", ""));
    assert!(same_text("\u{e9}", "\u{e9}"));
    assert!(!same_text("e\u{301}", "\u{e9}"));
    assert!(!same_text("ab", "abc"));
    assert_eq!(byte_len("\u{e9}\u{1f600}"), 6);
}

#[test]
fn split_text_joins_back() {
    for text in ["", ",", "a", "a,b", ",a,,b,", "\u{e9},\u{1f600}"] {
        let parts = split(text, ',');
        assert_eq!(parts.join(","), text);
        assert_eq!(parts, text.split(',').map(str::to_owned).collect::<Vec<String>>());
    }
}

#[test]
fn lines_are_those_of_the_standard_library() {
    for text in [
        "", "\n", "\r\n", "a", "a\n", "a\r\n", "a\nb", "a\r\nb\r", "\n\na\r\r\n", "a\rb\n", "\r", "\u{e9}\n\u{2028}x",
    ] {
        assert_eq!(split_lines(text), text.lines().map(str::to_owned).collect::<Vec<String>>());
    }
}

#[test]
fn prefixes_and_passages_are_found() {
    assert_eq!(strip_prefix("data: x", "data:"), Some(" x"));
    assert_eq!(strip_prefix("data:", "data:"), Some(""));
    assert_eq!(strip_prefix("dat", "data:"), None);
    assert_eq!(strip_prefix("Data: x", "data:"), None);
    assert!(contains("abcabd", "abd"));
    assert!(contains("abc", ""));
    assert!(contains("x\u{e9}y", "\u{e9}"));
    assert!(!contains("ab", "abc"));
    assert!(!contains("abab", "ba b"));
}

#[test]
fn members_are_set_in_place_and_taken_out() {
    let mut members = vec![
        ("a".to_owned(), JsonValue::Null),
        ("b".to_owned(), JsonValue::Bool(true)),
    ];
    set_member(&mut members, "a", JsonValue::Bool(false));
    assert_eq!(members[0], ("a".to_owned(), JsonValue::Bool(false)));
    set_member(&mut members, "c", JsonValue::Null);
    assert_eq!(find(&members, "c"), Some(2));
    remove_member(&mut members, "b");
    assert_eq!(find(&members, "b"), None);
    remove_member(&mut members, "b");
    assert_eq!(members.len(), 2);
    let object = JsonValue::Object(members);
    assert_eq!(object.get("a"), Some(&JsonValue::Bool(false)));
    assert_eq!(object.get("z"), None);
    assert_eq!(JsonValue::Text("t".to_owned()).as_str(), Some("t"));
    assert_eq!(JsonValue::Null.get("a"), None);
}
