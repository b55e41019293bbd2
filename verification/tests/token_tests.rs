use flared::tokens::{generate_token, hash_token, prepare_enrollment, verify_token, TokenStore};

#[test]
fn generated_token_is_64_hex_chars() {
    let t = generate_token();
    assert_eq!(t.len(), 64);
    assert!(t.chars().all(|c| c.is_ascii_hexdigit()));
}

#[test]
fn generated_tokens_differ() {
    let a = generate_token();
    let b = generate_token();
    assert_ne!(a, b);
}

#[test]
fn token_verifies_against_its_own_hash() {
    let token = generate_token();
    let hash = hash_token(&token).expect("hashing succeeds");
    assert!(verify_token(&token, &hash));
}

#[test]
fn different_token_fails_verification() {
    let t1 = generate_token();
    let t2 = generate_token();
    let hash2 = hash_token(&t2).expect("hashing succeeds");
    assert!(!verify_token(&t1, &hash2));
}

#[test]
fn garbage_hash_fails_verification() {
    assert!(!verify_token("anything", "not a phc string"));
}

#[test]
fn enrollment_pair_verifies() {
    let (token, hash) = prepare_enrollment().expect("enrollment succeeds");
    assert_eq!(token.len(), 64);
    assert!(verify_token(&token, &hash));
}

#[test]
fn store_accepts_enrolled_token_only() {
    let mut store = TokenStore::new();
    let (token, hash) = prepare_enrollment().unwrap();
    store.register(hash);
    assert!(store.accepts(&Some(token)));
    assert!(!store.accepts(&Some(generate_token())));
}

#[test]
fn store_rejects_absent_and_empty_token() {
    let mut store = TokenStore::new();
    let (_, hash) = prepare_enrollment().unwrap();
    store.register(hash);
    assert!(!store.accepts(&None));
    assert!(!store.accepts(&Some(String::new())));
}

#[test]
fn registration_is_append_only() {
    let mut store = TokenStore::new();
    let (t1, h1) = prepare_enrollment().unwrap();
    store.register(h1);
    let (t2, h2) = prepare_enrollment().unwrap();
    store.register(h2);
    assert_eq!(store.tokens.len(), 2);
    // Enrolling a second hash keeps the first token accepted.
    assert!(store.accepts(&Some(t1)));
    assert!(store.accepts(&Some(t2)));
}
