use maccms_jobs::text::{
    bytes_equal, clone_opt_text, clone_texts, decimal_text, opt_text_equal, signed_decimal_text,
    str_equal, texts_equal,
};

#[test]
fn decimal_text_matches_std_formatting() {
    for n in [0u64, 1, 9, 10, 11, 99, 100, 101, 12_345, 1_000_000, u64::MAX] {
        assert_eq!(decimal_text(n), n.to_string());
    }
}

#[test]
fn signed_decimal_text_matches_std_formatting() {
    for n in [0i64, 1, -1, 9, -9, 10, -10, 1234, -1234, i64::MAX, i64::MIN, i64::MIN + 1] {
        assert_eq!(signed_decimal_text(n), n.to_string());
    }
}

#[test]
fn byte_comparison_is_equality() {
    assert!(bytes_equal(b"", b""));
    assert!(bytes_equal(b"abc", b"abc"));
    assert!(!bytes_equal(b"abc", b"abd"));
    assert!(!bytes_equal(b"abc", b"bbc"));
    assert!(!bytes_equal(b"abc", b"abcd"));
    assert!(!bytes_equal(b"", b"a"));
    assert!(!bytes_equal(&[0x00, 0xff], &[0xff, 0x00]));
    assert!(!bytes_equal(&[0x01], &[0x00]));
}

#[test]
fn text_comparison_is_equality() {
    assert!(str_equal("完成", "完成"));
    assert!(!str_equal("完成", "完戎"));
    assert!(!str_equal("a", "A"));
    assert!(opt_text_equal(&None, &None));
    assert!(opt_text_equal(&Some("a".to_string()), &Some("a".to_string())));
    assert!(!opt_text_equal(&Some("a".to_string()), &None));
    assert!(!opt_text_equal(&None, &Some(String::new())));
    assert!(!opt_text_equal(&Some("a".to_string()), &Some("b".to_string())));
    let a = vec!["x".to_string(), "y".to_string()];
    assert!(texts_equal(&a, &a.clone()));
    assert!(!texts_equal(&a, &vec!["x".to_string()]));
    assert!(!texts_equal(&a, &vec!["x".to_string(), "z".to_string()]));
    assert!(texts_equal(&vec![], &vec![]));
}

#[test]
fn copies_and_concatenation() {
    assert_eq!(maccms_jobs::text::joined("ab", "cd"), "abcd");
    assert_eq!(maccms_jobs::text::joined("", ""), "");
    assert_eq!(clone_opt_text(&Some("s".to_string())), Some("s".to_string()));
    assert_eq!(clone_opt_text(&None), None);
    let list = vec!["a".to_string(), "b".to_string()];
    assert_eq!(clone_texts(&list), list);
}
