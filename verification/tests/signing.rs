use gdax_client::sign::{build_message, is_hashable, sign, sign_message};
use gdax_client::{Error, Method};

const SECRET: &str = "c3VwZXIgc2VjcmV0IGtleQ==";

#[test]
fn signing_message_has_no_separators() {
    assert_eq!(build_message(1500000000, Method::Get, "/accounts", ""), "1500000000GET/accounts");
    assert_eq!(
        build_message(42, Method::Post, "/orders?x=1", "{\"a\":1}"),
        "42POST/orders?x=1{\"a\":1}"
    );
    assert_eq!(build_message(-5, Method::Delete, "/orders", ""), "-5DELETE/orders");
}

#[test]
fn sign_matches_known_signatures() {
    assert_eq!(
        sign(SECRET, 1500000000, Method::Get, "/accounts", "").unwrap(),
        "G8AUVEQb3V1kp3cgclsyLo8Uqi+qs/FoCBBKhCSdMVA="
    );
    let body = "{\"type\":\"limit\",\"side\":\"buy\",\"product_id\":\"BTC-USD\",\"price\":100.0,\"size\":1.0}";
    assert_eq!(
        sign(SECRET, 1500000000, Method::Post, "/orders", body).unwrap(),
        "4nh1meiTA6U81qKEvi5WF64zxr+7MOb/jyWXxvJu9Ew="
    );
    assert_eq!(
        sign(SECRET, -5, Method::Delete, "/orders?product_id=BTC-USD", "").unwrap(),
        "/IXi6z0dlVb3fejMn0CxXI6pQLD9VJ3S8g8Me4YESIo="
    );
}

#[test]
fn sign_message_matches_the_published_hmac_vector() {
    assert_eq!(
        sign_message("SmVmZQ==", "what do ya want for nothing?").unwrap(),
        "W9zBRr9gdU5qBCQmCJV1x1oAPwidJzmDnexYuWTsOEM="
    );
}

#[test]
fn sign_hashes_the_utf8_bytes_under_a_long_key() {
    let secret = "AAECAwQFBgcICQoLDA0ODxAREhMUFRYXGBkaGxwdHh8gISIjJCUmJygpKissLS4vMDEyMzQ1Njc4OTo7PD0+P0BBQkNERUZHSElKS0xNTk9QUVJTVFVWV1hZWltcXV5fYGFiYw==";
    assert_eq!(
        sign(secret, 7, Method::Get, "/\u{e9}", "").unwrap(),
        "l+qQl7RgrtqbjhWnjFIAGzFQm7SmQHcNd6BwWLNbTFo="
    );
}

#[test]
fn sign_is_deterministic() {
    let first = sign(SECRET, 1500000000, Method::Post, "/orders", "{}").unwrap();
    let second = sign(SECRET, 1500000000, Method::Post, "/orders", "{}").unwrap();
    assert_eq!(first, second);
}

#[test]
fn sign_changes_with_each_input() {
    let base = sign(SECRET, 1500000000, Method::Post, "/orders", "{}").unwrap();
    let mut seen = vec![base];
    let others = vec![
        sign(SECRET, 1500000001, Method::Post, "/orders", "{}").unwrap(),
        sign(SECRET, 1500000000, Method::Get, "/orders", "{}").unwrap(),
        sign(SECRET, 1500000000, Method::Delete, "/orders", "{}").unwrap(),
        sign(SECRET, 1500000000, Method::Post, "/orderz", "{}").unwrap(),
        sign(SECRET, 1500000000, Method::Post, "/orders", "{ }").unwrap(),
        sign("SmVmZQ==", 1500000000, Method::Post, "/orders", "{}").unwrap(),
    ];
    for signature in others {
        assert!(!seen.contains(&signature));
        seen.push(signature);
    }
    for timestamp in 0..200i64 {
        let signature = sign(SECRET, timestamp, Method::Get, "/time", "").unwrap();
        assert!(!seen.contains(&signature));
        seen.push(signature);
    }
}

#[test]
fn sign_refuses_a_secret_that_is_not_base64() {
    assert!(matches!(
        sign("not base64!", 1, Method::Get, "/accounts", ""),
        Err(Error::InvalidSecretKey)
    ));
    assert!(matches!(
        sign("c", 1, Method::Get, "/accounts", ""),
        Err(Error::InvalidSecretKey)
    ));
}

#[test]
fn sign_accepts_an_empty_secret() {
    assert!(sign("", 1, Method::Get, "/accounts", "").is_ok());
}

#[test]
fn hashable_lengths() {
    assert!(is_hashable(0));
    assert!(is_hashable(1 << 20));
    assert!(!is_hashable(usize::MAX));
    assert!(!is_hashable(usize::MAX - 63));
}
