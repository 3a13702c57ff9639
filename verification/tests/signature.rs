use maccms_jobs::signature::{sign, signature_matches, verify, SIGNATURE_LEN};

#[test]
fn known_hmac_sha256_vector_is_produced() {
    // HMAC-SHA256("key", "The quick brown fox jumps over the lazy dog"), in base64.
    assert_eq!(
        sign("key", "The quick brown fox jumps over the lazy dog"),
        "97yD9DBThCSxMpjmqm+xQ+9NWaFJRhdZl0edvC0aPNg="
    );
}

#[test]
fn own_signature_is_accepted() {
    let signature = sign("secret", "{\"job_id\":\"j1\"}");
    assert!(verify("secret", &signature, "{\"job_id\":\"j1\"}"));
}

#[test]
fn altered_signature_is_refused() {
    let signature = sign("secret", "payload");
    let mut altered = signature.clone().into_bytes();
    altered[0] = if altered[0] == b'A' { b'B' } else { b'A' };
    let altered = String::from_utf8(altered).unwrap();
    assert!(!verify("secret", &altered, "payload"));
}

#[test]
fn altered_payload_is_refused() {
    let signature = sign("secret", "payload");
    assert!(!verify("secret", &signature, "paylaod"));
    assert!(!verify("secret", &signature, "payload "));
}

#[test]
fn other_secret_is_refused() {
    let signature = sign("secret", "payload");
    assert!(!verify("Secret", &signature, "payload"));
}

#[test]
fn malformed_signature_is_refused_without_panic() {
    assert!(!verify("secret", "", "payload"));
    assert!(!verify("", "not base64 at all \u{1F600}", "payload"));
    assert!(!verify("secret", "====", ""));
}

#[test]
fn empty_secret_and_payload_are_signed() {
    let signature = sign("", "");
    assert_eq!(signature.len(), 44);
    assert!(verify("", &signature, ""));
}

#[test]
fn signature_comparison_is_exact() {
    assert!(signature_matches("abc", "abc"));
    assert!(!signature_matches("abc", "abd"));
    assert!(!signature_matches("abc", "ab"));
    assert!(signature_matches("", ""));
}

#[test]
fn signature_has_44_characters_and_no_other_length_is_accepted() {
    assert_eq!(SIGNATURE_LEN, 44);
    for (secret, payload) in [("", ""), ("k", "p"), ("a long secret", "a longer payload, still")] {
        let signature = sign(secret, payload);
        assert_eq!(signature.chars().count(), 44);
        assert!(!verify(secret, &signature[..43], payload));
        assert!(!verify(secret, &format!("{}=", signature), payload));
        assert!(!verify(secret, "", payload));
    }
}
