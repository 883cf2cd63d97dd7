use access_grants::bearer::{
    pool, random_string, to_hex, GRANT_BEARER_ID_LENGTH, GRANT_BEARER_KEY_LENGTH,
};
use access_grants::grant::GrantBearer;

#[test]
fn the_pool_holds_digits_and_letters() {
    assert_eq!(pool(), "0123456789abcdefghijklmnopqrstuvwxyzABCDEFGHIJKLMNOPQRSTUVWXYZ");
    assert_eq!(pool().chars().count(), 62);
}

#[test]
fn random_strings_have_the_length_asked_for() {
    assert_eq!(random_string(0, pool()), "");
    assert_eq!(random_string(1, pool()).chars().count(), 1);
    assert_eq!(random_string(24, pool()).chars().count(), 24);
    assert_eq!(random_string(1000, "x"), "x".repeat(1000));
}

#[test]
fn random_strings_are_drawn_from_the_pool() {
    let text = random_string(500, "abc");
    assert!(text.chars().all(|c| "abc".contains(c)));
    let wide = random_string(50, "äöü");
    assert_eq!(wide.chars().count(), 50);
    assert!(wide.chars().all(|c| "äöü".contains(c)));
}

#[test]
fn random_strings_differ_from_call_to_call() {
    assert_ne!(random_string(24, pool()), random_string(24, pool()));
}

#[test]
fn a_new_key_is_prefix_identifier_and_secret() {
    for _ in 0..200 {
        let grant = GrantBearer::new("surreal-bearer");
        assert_eq!(grant.id.chars().count(), GRANT_BEARER_ID_LENGTH);
        assert!(grant.id.chars().next().unwrap().is_ascii_alphabetic());
        assert!(grant.id.chars().all(|c| c.is_ascii_alphanumeric()));
        let head = format!("surreal-bearer-{}-", grant.id);
        assert!(grant.key.starts_with(&head));
        let secret = &grant.key[head.len()..];
        assert_eq!(secret.chars().count(), GRANT_BEARER_KEY_LENGTH);
        assert!(secret.chars().all(|c| c.is_ascii_alphanumeric()));
    }
}

#[test]
fn new_keys_differ_from_call_to_call() {
    let a = GrantBearer::new("p");
    let b = GrantBearer::new("p");
    assert_ne!(a.key, b.key);
}

#[test]
fn a_key_is_put_together_from_its_parts() {
    let grant = GrantBearer::from_parts("surreal-bearer", "aB3dE6gH9jKl", "0123456789abcdefghijklmn");
    assert_eq!(grant.id, "aB3dE6gH9jKl");
    assert_eq!(grant.key, "surreal-bearer-aB3dE6gH9jKl-0123456789abcdefghijklmn");
    let empty = GrantBearer::from_parts("", "", "");
    assert_eq!(empty.key, "--");
}

#[test]
fn hashing_stores_the_sha256_digest_in_hexadecimal() {
    let grant = GrantBearer::from_parts("surreal-bearer", "aB3dE6gH9jKl", "0123456789abcdefghijklmn");
    let stored = grant.hashed();
    assert_eq!(stored.id, "aB3dE6gH9jKl");
    assert_eq!(stored.key, "305296ac19eb6c109c63b133fce687c2dd74ee5f54d03fbe3b064a7eecb7f78a");
}

#[test]
fn hashing_agrees_with_the_published_digests() {
    let abc = GrantBearer { id: String::from("i"), key: String::from("abc") }.hashed();
    assert_eq!(abc.key, "ba7816bf8f01cfea414140de5dae2223b00361a396177a9cb410ff61f20015ad");
    let empty = GrantBearer { id: String::from("i"), key: String::new() }.hashed();
    assert_eq!(empty.key, "e3b0c44298fc1c149afbf4c8996fb92427ae41e4649b934ca495991b7852b855");
}

#[test]
fn hashing_is_stable_across_calls() {
    let key = "surreal-refresh-Zz0000000000-AAAAAAAAAAAAAAAAAAAAAAAA";
    let a = GrantBearer { id: String::from("Zz0000000000"), key: String::from(key) }.hashed();
    let b = GrantBearer { id: String::from("Zz0000000000"), key: String::from(key) }.hashed();
    assert_eq!(a, b);
    assert_eq!(a.key, "72c4b87549185deea69cecbcf23b43fd2474677580f9c251851ac0f23e714e65");
}

#[test]
fn the_digest_of_a_new_key_is_not_the_key() {
    for _ in 0..50 {
        let grant = GrantBearer::new("surreal-bearer");
        let key = grant.key.clone();
        let stored = grant.hashed();
        assert_ne!(stored.key, key);
        assert!(!stored.key.contains(&key));
        assert_eq!(stored.key.len(), 64);
        assert!(stored.key.chars().all(|c| c.is_ascii_digit() || ('a'..='f').contains(&c)));
    }
}

#[test]
fn bytes_are_written_in_lower_case_hexadecimal() {
    assert_eq!(to_hex(&vec![]), "");
    assert_eq!(to_hex(&vec![0x00, 0x0a, 0x14, 0x1e, 0xff]), "000a141eff");
    assert_eq!(to_hex(&vec![0x9f, 0xa0, 0xbc, 0xde]), "9fa0bcde");
}
