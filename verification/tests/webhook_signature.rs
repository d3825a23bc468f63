use customer_identity::lemonsqueezy::webhook::{
    orders_webhook_events_listener, signature_verification,
};
use customer_identity::types::response::{HeaderValue, HttpStatus, ResponseData};
use hmac::{Hmac, Mac};
use sha2::Sha256;

fn sign(key: &[u8], body: &[u8]) -> String {
    let mut mac = Hmac::<Sha256>::new_from_slice(key).unwrap();
    mac.update(body);
    hex::encode(mac.finalize().into_bytes())
}

#[test]
fn known_mac_is_accepted() {
    // RFC 4231, test case 2.
    let signature = HeaderValue::Text(
        "5bdcc146bf60754e6a042426089575c75a003f089d2739839dec58b964ec3843".to_string(),
    );
    let (verified, response) =
        signature_verification(&signature, b"what do ya want for nothing?", b"Jefe");
    assert!(verified);
    assert_eq!(response.message, "");
    assert_eq!(response.exit_code, 0);
    assert_eq!(response.data, ResponseData::Empty);
}

#[test]
fn correct_signature_over_exact_bytes_verifies() {
    let key = b"shared-secret";
    let body = br#"{"meta":{"event_name":"order_created"},"data":{}}"#;
    let signature = HeaderValue::Text(sign(key, body));
    let (verified, _) = signature_verification(&signature, body, key);
    assert!(verified);
}

#[test]
fn flipping_any_byte_of_the_body_fails() {
    let key = b"shared-secret";
    let body = b"{\"a\": 1, \"b\": [true, null]}".to_vec();
    let signature = HeaderValue::Text(sign(key, &body));
    for i in 0..body.len() {
        let mut altered = body.clone();
        altered[i] ^= 0x01;
        let (verified, response) = signature_verification(&signature, &altered, key);
        assert!(!verified);
        assert_eq!(response.message, "invalid signature");
        assert_eq!(response.exit_code, 1);
    }
}

#[test]
fn flipping_any_byte_of_the_signature_fails() {
    let key = b"shared-secret";
    let body = b"payload";
    let good = sign(key, body);
    for i in 0..good.len() {
        let mut bytes = good.clone().into_bytes();
        bytes[i] = if bytes[i] == b'0' { b'1' } else { b'0' };
        let altered = String::from_utf8(bytes).unwrap();
        if altered == good {
            continue;
        }
        let (verified, response) =
            signature_verification(&HeaderValue::Text(altered), body, key);
        assert!(!verified);
        assert_eq!(response.message, "invalid signature");
    }
}

#[test]
fn re_encoded_body_does_not_verify() {
    let key = b"k";
    let sent = b"{\"a\":1,\"b\":2}";
    let re_encoded = b"{\"a\": 1, \"b\": 2}";
    let signature = HeaderValue::Text(sign(key, sent));
    assert!(signature_verification(&signature, sent, key).0);
    assert!(!signature_verification(&signature, re_encoded, key).0);
}

#[test]
fn upper_case_signature_is_rejected() {
    let key = b"k";
    let body = b"body";
    let upper = sign(key, body).to_uppercase();
    let (verified, response) = signature_verification(&HeaderValue::Text(upper), body, key);
    assert!(!verified);
    assert_eq!(response.message, "invalid signature");
}

#[test]
fn missing_signature_is_rejected() {
    let (verified, response) = signature_verification(&HeaderValue::Absent, b"body", b"k");
    assert!(!verified);
    assert_eq!(response.message, "missing signature");
    assert_eq!(response.exit_code, 1);
}

#[test]
fn unreadable_signature_is_rejected() {
    let (verified, response) = signature_verification(&HeaderValue::Unreadable, b"body", b"k");
    assert!(!verified);
    assert_eq!(response.message, "invalid signature");
}

#[test]
fn signature_of_wrong_length_is_rejected() {
    let key = b"k";
    let body = b"body";
    let mut short = sign(key, body);
    short.pop();
    let (verified, response) = signature_verification(&HeaderValue::Text(short), body, key);
    assert!(!verified);
    assert_eq!(response.message, "invalid signature length");
    let (verified, response) =
        signature_verification(&HeaderValue::Text(String::new()), body, key);
    assert!(!verified);
    assert_eq!(response.message, "invalid signature length");
}

#[test]
fn empty_key_and_body_still_have_a_signature() {
    let signature = HeaderValue::Text(sign(b"", b""));
    assert!(signature_verification(&signature, b"", b"").0);
}

#[test]
fn order_events_are_acknowledged() {
    let key = b"k";
    let body = b"{}";
    let signature = HeaderValue::Text(sign(key, body));
    let (status, response) = orders_webhook_events_listener(&signature, body, key, &None);
    assert_eq!(status, HttpStatus::OK);
    assert_eq!(status.code(), 200);
    assert_eq!(response.message, "captured");
    assert_eq!(response.exit_code, 0);
}

#[test]
fn order_events_without_signature_are_refused() {
    let (status, response) =
        orders_webhook_events_listener(&HeaderValue::Absent, b"{}", b"k", &None);
    assert_eq!(status, HttpStatus::BAD_REQUEST);
    assert_eq!(status.code(), 400);
    assert_eq!(response.message, "missing signature");
}

#[test]
fn order_events_with_unreadable_body_are_refused() {
    let key = b"k";
    let body = b"not json";
    let signature = HeaderValue::Text(sign(key, body));
    let (status, response) = orders_webhook_events_listener(
        &signature,
        body,
        key,
        &Some("expected value at line 1".to_string()),
    );
    assert_eq!(status, HttpStatus::BAD_REQUEST);
    assert_eq!(response.message, "invalid.payload: expected value at line 1");
    assert_eq!(response.exit_code, 1);
}
