//! Text helpers against the standard library.

use doubao_asr::text::{
    contains_text, decimal_text, is_blank, join_texts, same_text, signed_decimal_text,
};

#[test]
fn blank_agrees_with_trim() {
    for c in '\0'..=char::MAX {
        let s = c.to_string();
        assert_eq!(is_blank(&s), s.trim().is_empty(), "{c:?}");
    }
    assert!(is_blank(""));
    assert!(is_blank(" \t\u{3000}"));
    assert!(!is_blank(" x "));
}

#[test]
fn numbers_agree_with_to_string() {
    for n in [0u64, 9, 10, 6400, 45000001, u64::MAX] {
        assert_eq!(decimal_text(n), n.to_string());
    }
    for n in [0i32, -1, 7, -6400, i32::MAX, i32::MIN] {
        assert_eq!(signed_decimal_text(n), n.to_string());
    }
}

#[test]
fn lists_of_texts() {
    let list = vec!["a".to_string(), "b".to_string(), "c".to_string()];
    assert_eq!(join_texts(&list, ", "), "a, b, c");
    assert_eq!(join_texts(&Vec::new(), ", "), "");
    assert!(contains_text(&list, "b"));
    assert!(!contains_text(&list, "d"));
    assert!(same_text("x", "x") && !same_text("x", "y"));
}
