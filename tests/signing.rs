use polymarket_rs::client::AuthenticatedClient;
use polymarket_rs::error::Error;
use polymarket_rs::signing::{build_l2_message, build_request_path, create_l2_headers, ApiCreds};

const SECRET: &str = "c2VjcmV0LWtleS0xMjM0NTY3ODkw";

fn creds() -> ApiCreds {
    ApiCreds::new("my-key".to_string(), SECRET.to_string(), "my-pass".to_string())
}

#[test]
fn l2_message_concatenates_in_order() {
    assert_eq!(build_l2_message(1700000000, "GET", "/auth/api-keys", None), "1700000000GET/auth/api-keys");
    assert_eq!(build_l2_message(5, "POST", "/order", Some("{\"a\":1}")), "5POST/order{\"a\":1}");
    assert_eq!(build_l2_message(0, "DELETE", "/x", Some("")), "0DELETE/x");
}

#[test]
fn l2_signature_of_fixed_request() {
    let c = creds();
    let h = create_l2_headers("0xabc", Some(&c), "GET", "/auth/api-keys", None, 1700000000).unwrap();
    assert_eq!(h.signature, "RKAu_Upp4k1UrAZ6sGsKMmCBwlURRktb83CYkZO7PQU");
    assert_eq!(h.timestamp, "1700000000");
    assert_eq!(h.api_key, "my-key");
    assert_eq!(h.passphrase, "my-pass");
    assert_eq!(h.address, "0xabc");
}

#[test]
fn l2_signature_covers_the_body() {
    let c = creds();
    let h = create_l2_headers("0xabc", Some(&c), "POST", "/order", Some("{\"a\":1}"), 1700000000).unwrap();
    assert_eq!(h.signature, "_YJtZCF_p0XdfRKdKx9-4mtlvy9oJjR-m9sSDnziUuU");
}

#[test]
fn l2_signature_is_a_pure_function() {
    let c = creds();
    let a = create_l2_headers("0xabc", Some(&c), "GET", "/auth/api-keys", None, 1700000000).unwrap();
    let b = create_l2_headers("0xabc", Some(&c), "GET", "/auth/api-keys", None, 1700000000).unwrap();
    assert_eq!(a.signature, b.signature);
    let later = create_l2_headers("0xabc", Some(&c), "GET", "/auth/api-keys", None, 1700000001).unwrap();
    assert_ne!(a.signature, later.signature);
}

#[test]
fn l2_without_credentials_is_auth_required() {
    assert!(matches!(create_l2_headers("0xabc", None, "GET", "/x", None, 1), Err(Error::AuthRequired(_))));
    let client = AuthenticatedClient::new("h", "0xabc".to_string(), 137, None, None);
    assert!(matches!(client.l2_headers("GET", "/auth/api-keys", None, 1), Err(Error::AuthRequired(_))));
}

#[test]
fn l2_with_undecodable_secret_is_signing_error() {
    let bad = ApiCreds::new("k".to_string(), "not base64!".to_string(), "p".to_string());
    assert!(matches!(create_l2_headers("0xabc", Some(&bad), "GET", "/x", None, 1), Err(Error::Signing(_))));
}

#[test]
fn authenticated_client_signs_with_its_credentials() {
    let client = AuthenticatedClient::new("h", "0xabc".to_string(), 137, Some(creds()), Some("0xfund".to_string()));
    let h = client.l2_headers("GET", "/auth/api-keys", None, 1700000000).unwrap();
    assert_eq!(h.signature, "RKAu_Upp4k1UrAZ6sGsKMmCBwlURRktb83CYkZO7PQU");
    assert_eq!(client.get_address(), "0xabc");
    assert_eq!(client.get_funder(), Some("0xfund".to_string()));
    assert_eq!(client.api_creds().map(|c| c.api_key.clone()), Some("my-key".to_string()));
}

#[test]
fn query_is_added_after_the_signed_path() {
    assert_eq!(build_request_path("/data/orders", &Vec::new()), "/data/orders");
    let params = vec![("market".to_string(), "0xabc".to_string()), ("id".to_string(), "1".to_string())];
    assert_eq!(build_request_path("/data/orders", &params), "/data/orders?market=0xabc&id=1");
    let one = vec![("id".to_string(), "7".to_string())];
    assert_eq!(build_request_path("/order-scoring", &one), "/order-scoring?id=7");
}
