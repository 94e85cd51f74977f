use bitwarden_rs::crypto::{
    generate_random_bytes, generate_token, hash_password, kdf_iterations, try_hash_password,
    try_verify_password, verify_password, DEFAULT_KDF, DEFAULT_KDF_ITERATIONS,
};

#[test]
fn test_hash_and_verify() {
    let hash = hash_password("testpassword", "test@example.com", 100_000);
    assert!(verify_password("testpassword", "test@example.com", 100_000, &hash));
    assert!(!verify_password("wrongpassword", "test@example.com", 100_000, &hash));
}

#[test]
fn hash_matches_pbkdf2_sha256_vector() {
    // RFC 7914 section 11: PBKDF2-HMAC-SHA256("passwd", "salt", 1), first 32 bytes.
    assert_eq!(hash_password("passwd", "salt", 1), "VawEblbjCJ/sFpHCJUS2BflBhSFt3gRl5oudV8INrLw=");
}

#[test]
fn hash_of_known_account() {
    assert_eq!(
        hash_password("testpassword", "test@example.com", 100_000),
        "zSz0GEpNbDML/LAk2PE7MhjSSW/DpbiJY97iAAMP9/o="
    );
}

#[test]
fn hash_is_44_symbols() {
    assert_eq!(hash_password("x", "y@z", 2).len(), 44);
}

#[test]
fn hash_ignores_email_case() {
    assert_eq!(
        hash_password("pw", "Test@Example.COM", 1000),
        hash_password("pw", "test@example.com", 1000)
    );
}

#[test]
fn zero_iterations_fall_back() {
    assert_eq!(hash_password("pw", "a@b.c", 0), hash_password("pw", "a@b.c", 100_000));
    assert_ne!(hash_password("pw", "a@b.c", 1), hash_password("pw", "a@b.c", 2));
}

#[test]
fn iteration_count_reinterprets_sign() {
    assert_eq!(kdf_iterations(0), 100_000);
    assert_eq!(kdf_iterations(600_000), 600_000);
    assert_eq!(kdf_iterations(-1), u32::MAX);
    assert_eq!(DEFAULT_KDF, 0);
    assert_eq!(DEFAULT_KDF_ITERATIONS, 600_000);
}

#[test]
fn checked_hash_and_verify() {
    let h = try_hash_password("pw", "a@b.c", 5).unwrap();
    assert_eq!(h, hash_password("pw", "a@b.c", 5));
    assert_eq!(try_verify_password("pw", "A@B.C", 5, &h), Some(true));
    assert_eq!(try_verify_password("pw2", "a@b.c", 5, &h), Some(false));
}

#[test]
fn random_texts_have_base64_length() {
    let t = generate_token().unwrap();
    assert_eq!(t.len(), 44);
    assert!(t.ends_with('='));
    let u = generate_token().unwrap();
    assert_ne!(t, u);
    assert_eq!(generate_random_bytes(20).unwrap().len(), 28);
    assert_eq!(generate_random_bytes(0).unwrap(), "");
}

#[test]
fn hash_ends_in_one_padding_symbol() {
    let h = hash_password("testpassword", "test@example.com", 100_000);
    assert!(h.ends_with('='));
    assert!(!h.ends_with("=="));
}

#[test]
fn random_text_is_standard_base64() {
    assert_eq!(bitwarden_rs::crypto::random_text(b"Hello world"), "SGVsbG8gd29ybGQ=");
    assert_eq!(bitwarden_rs::crypto::random_text(b""), "");
    assert_eq!(bitwarden_rs::crypto::random_text(&[0xfb, 0xff]), "+/8=");
    assert_eq!(bitwarden_rs::crypto::random_text(b"abc"), "YWJj");
}
