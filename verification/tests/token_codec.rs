use customer_identity::controllers::scopes::SessionScopes;
use customer_identity::text::UnknownVariant;
use customer_identity::types::response::{HeaderValue, HttpStatus};
use customer_identity::utilities::api_messages::TokenMessages;
use customer_identity::utilities::token::{
    create_token, extract_token_from_headers, get_token_payload, scopes_to_string,
    string_to_scopes, validate_token, Claims,
};

const KEY: &[u8] = b"signing-key";
const ISSUER: &str = "api.example.com";

fn issue(id: &str, scopes: Vec<SessionScopes>, ttl: u64, now: u64) -> String {
    create_token(&id.to_string(), scopes, ISSUER, KEY, ttl, now).unwrap()
}

#[test]
fn issued_token_verifies_with_its_claims() {
    let token = issue("customer-1", vec![SessionScopes::TotalAccess], 86400, 1_700_000_000);
    let claims = validate_token(&token, KEY, 1_700_000_001).unwrap();
    assert_eq!(
        claims,
        Claims {
            iss: "api.example.com".to_string(),
            sub: "customer-1".to_string(),
            aud: "total_access".to_string(),
            exp: 1_700_086_400,
        }
    );
}

#[test]
fn token_has_three_parts_and_hs512_header() {
    let token = issue("c", vec![SessionScopes::ViewPublicID], 10, 100);
    let parts: Vec<&str> = token.split('.').collect();
    assert_eq!(parts.len(), 3);
    let header = jsonwebtoken::decode_header(&token).unwrap();
    assert_eq!(header.alg, jsonwebtoken::Algorithm::HS512);
}

#[test]
fn token_verifies_at_the_second_of_its_expiry() {
    let token = issue("c", vec![SessionScopes::TotalAccess], 60, 1000);
    assert!(validate_token(&token, KEY, 1060).is_ok());
}

#[test]
fn token_past_its_expiry_is_expired() {
    let token = issue("c", vec![SessionScopes::TotalAccess], 60, 1000);
    assert_eq!(validate_token(&token, KEY, 1061), Err(TokenMessages::Expired));
    assert_eq!(validate_token(&token, KEY, u64::MAX), Err(TokenMessages::Expired));
}

#[test]
fn expired_token_with_bad_signature_fails_too() {
    let token = issue("c", vec![SessionScopes::TotalAccess], 60, 1000);
    assert!(validate_token(&token, b"another-key", 5000).is_err());
    let mut tampered = token.clone();
    tampered.push('x');
    assert!(validate_token(&tampered, KEY, 5000).is_err());
}

#[test]
fn payload_of_an_expired_token_can_still_be_read() {
    let token = issue("c", vec![SessionScopes::UpdateName], 60, 1000);
    let claims = get_token_payload(&token, KEY).unwrap();
    assert_eq!(claims.sub, "c");
    assert_eq!(claims.exp, 1060);
    assert_eq!(claims.aud, "update_name");
}

#[test]
fn token_signed_with_another_key_is_refused() {
    let token = issue("c", vec![SessionScopes::TotalAccess], 60, 1000);
    assert_eq!(validate_token(&token, b"another-key", 1000), Err(TokenMessages::ErrorValidating));
    assert_eq!(get_token_payload(&token, b"another-key"), Err(TokenMessages::ErrorValidating));
}

#[test]
fn tampered_token_is_refused() {
    let token = issue("c", vec![SessionScopes::TotalAccess], 60, 1000);
    let mut bytes = token.clone().into_bytes();
    let last = bytes.len() - 1;
    bytes[last] = if bytes[last] == b'A' { b'B' } else { b'A' };
    let tampered = String::from_utf8(bytes).unwrap();
    assert_eq!(validate_token(&tampered, KEY, 1000), Err(TokenMessages::ErrorValidating));
}

#[test]
fn text_that_is_no_token_is_refused() {
    assert_eq!(validate_token("", KEY, 0), Err(TokenMessages::ErrorValidating));
    assert_eq!(validate_token("a.b.c", KEY, 0), Err(TokenMessages::ErrorValidating));
    assert_eq!(validate_token("not a token", KEY, 0), Err(TokenMessages::ErrorValidating));
}

#[test]
fn token_of_another_algorithm_is_refused() {
    let mut body = serde_json::Map::new();
    body.insert("iss".to_string(), serde_json::Value::from("i"));
    body.insert("sub".to_string(), serde_json::Value::from("c"));
    body.insert("aud".to_string(), serde_json::Value::from("total_access"));
    body.insert("exp".to_string(), serde_json::Value::from(2000u64));
    let token = jsonwebtoken::encode(
        &jsonwebtoken::Header::new(jsonwebtoken::Algorithm::HS256),
        &body,
        &jsonwebtoken::EncodingKey::from_secret(KEY),
    )
    .unwrap();
    assert_eq!(validate_token(&token, KEY, 1000), Err(TokenMessages::ErrorValidating));
}

#[test]
fn token_without_subject_is_refused() {
    let mut body = serde_json::Map::new();
    body.insert("iss".to_string(), serde_json::Value::from("i"));
    body.insert("aud".to_string(), serde_json::Value::from("total_access"));
    body.insert("exp".to_string(), serde_json::Value::from(2000u64));
    let token = jsonwebtoken::encode(
        &jsonwebtoken::Header::new(jsonwebtoken::Algorithm::HS512),
        &body,
        &jsonwebtoken::EncodingKey::from_secret(KEY),
    )
    .unwrap();
    assert_eq!(validate_token(&token, KEY, 1000), Err(TokenMessages::ErrorValidating));
}

#[test]
fn issuing_succeeds_whenever_the_expiry_fits() {
    let long_key = vec![0u8; 1000];
    for key in [&b""[..], &b"\0"[..], &long_key[..]] {
        for (ttl, now) in [(0u64, 0u64), (1, usize::MAX as u64 - 1), (usize::MAX as u64, 0)] {
            let token = create_token(&String::new(), vec![], "", key, ttl, now).unwrap();
            let claims = get_token_payload(&token, key).unwrap();
            assert_eq!(claims.exp as u64, now + ttl);
        }
    }
}

#[test]
fn expiry_that_overflows_is_an_error() {
    let r = create_token(
        &"c".to_string(),
        vec![SessionScopes::TotalAccess],
        ISSUER,
        KEY,
        1,
        u64::MAX,
    );
    assert_eq!(r, Err(TokenMessages::ErrorCreating));
}

#[test]
fn issuing_twice_gives_the_same_token() {
    let a = issue("c", vec![SessionScopes::TotalAccess], 60, 1000);
    let b = issue("c", vec![SessionScopes::TotalAccess], 60, 1000);
    assert_eq!(a, b);
    let c = issue("d", vec![SessionScopes::TotalAccess], 60, 1000);
    assert_ne!(a, c);
}

#[test]
fn empty_key_signs_and_verifies() {
    let token =
        create_token(&"c".to_string(), vec![SessionScopes::TotalAccess], ISSUER, b"", 60, 1000)
            .unwrap();
    assert_eq!(validate_token(&token, b"", 1000).unwrap().sub, "c");
    assert!(validate_token(&token, b"k", 1000).is_err());
}

#[test]
fn claims_with_unusual_text_are_read_back() {
    let id = "c\"1\n,\u{e9}\u{1F600}".to_string();
    let token = create_token(&id, vec![], "https://issuer/?a=b&c", KEY, 0, 0).unwrap();
    let claims = validate_token(&token, KEY, 0).unwrap();
    assert_eq!(claims.sub, id);
    assert_eq!(claims.iss, "https://issuer/?a=b&c");
    assert_eq!(claims.aud, "");
    assert_eq!(claims.exp, 0);
    assert_eq!(validate_token(&token, KEY, 1), Err(TokenMessages::Expired));
}

#[test]
fn scopes_are_joined_by_commas() {
    assert_eq!(scopes_to_string(vec![]), "");
    assert_eq!(scopes_to_string(vec![SessionScopes::TotalAccess]), "total_access");
    assert_eq!(
        scopes_to_string(vec![
            SessionScopes::ViewPublicID,
            SessionScopes::ViewEmailAddresses,
            SessionScopes::UpdateName,
        ]),
        "view_public_id,view_email_addresses,update_name"
    );
}

#[test]
fn scopes_are_read_back() {
    let all = vec![
        SessionScopes::ViewPublicID,
        SessionScopes::ViewEmailAddresses,
        SessionScopes::ViewPublicProfile,
        SessionScopes::ViewPrivateSensitiveProfile,
        SessionScopes::ViewSubscription,
        SessionScopes::UpdateName,
        SessionScopes::UpdateEmailAddresses,
        SessionScopes::UpdatePreferences,
        SessionScopes::TotalAccess,
    ];
    let text = scopes_to_string(all.clone());
    assert_eq!(string_to_scopes(text), Ok(all));
    assert_eq!(
        string_to_scopes("update_name,update_name".to_string()),
        Ok(vec![SessionScopes::UpdateName, SessionScopes::UpdateName])
    );
}

#[test]
fn unknown_scope_is_refused() {
    assert_eq!(string_to_scopes("".to_string()), Err(UnknownVariant));
    assert_eq!(string_to_scopes("admin".to_string()), Err(UnknownVariant));
    assert_eq!(string_to_scopes("update_name,".to_string()), Err(UnknownVariant));
    assert_eq!(string_to_scopes(",update_name".to_string()), Err(UnknownVariant));
    assert_eq!(string_to_scopes("update_name,,total_access".to_string()), Err(UnknownVariant));
    assert_eq!(string_to_scopes("update_name, total_access".to_string()), Err(UnknownVariant));
    assert_eq!(string_to_scopes("Total_Access".to_string()), Err(UnknownVariant));
}

#[test]
fn token_is_the_whole_authorization_header() {
    let header = HeaderValue::Text("abc.def.ghi".to_string());
    assert_eq!(extract_token_from_headers(&header).unwrap(), "abc.def.ghi");
}

#[test]
fn request_without_authorization_header_is_unauthorized() {
    let (status, response) = extract_token_from_headers(&HeaderValue::Absent).unwrap_err();
    assert_eq!(status, HttpStatus::UNAUTHORIZED);
    assert_eq!(status.code(), 401);
    assert_eq!(response.message, "token.not_authorization_header");
    assert_eq!(response.exit_code, 1);
}

#[test]
fn unreadable_authorization_header_is_a_server_error() {
    let (status, response) = extract_token_from_headers(&HeaderValue::Unreadable).unwrap_err();
    assert_eq!(status, HttpStatus::INTERNAL_SERVER_ERROR);
    assert_eq!(status.code(), 500);
    assert_eq!(response.message, "token.error_parsing_token");
}
