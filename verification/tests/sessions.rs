use customer_identity::controllers::identity::{
    get_session, get_user_session_from_req, google_authorization_code, google_customer_filter,
    identity_middleware,
    gooogle_authentication, legacy_authentication, legacy_authentication_filter, renew_session,
    renew_session_reply, session_created_reply, GoogleExchange, SESSION_TTL,
};
use customer_identity::controllers::scopes::{
    has_scope, is_granted, SessionData, SessionScopes,
};
use customer_identity::oauth::google::{GoogleOAuthQueryParams, GoogleUserResult};
use customer_identity::storage::{SessionWrite, StorageError, StoreRead, StoreWrite};
use customer_identity::text::UnknownVariant;
use customer_identity::types::customer::{
    AuthProviders, Customer, CustomerType, Email, Preferences,
};
use customer_identity::types::incoming_requests::SignIn;
use customer_identity::types::response::{
    GoogleProfile, HeaderValue, HttpStatus, ResponseData,
};
use customer_identity::types::subscription::{Slug, Subscription, SubscriptionFrequencyClass};
use customer_identity::utilities::token::{create_token, validate_token};

const KEY: &[u8] = b"signing-key";
const ISSUER: &str = "api.example.com";
const NOW: u64 = 1_700_000_000;

fn token_for(id: &str, scopes: Vec<SessionScopes>) -> String {
    create_token(&id.to_string(), scopes, ISSUER, KEY, 3600, NOW).unwrap()
}

fn customer(id: &str, provider: AuthProviders, password: &str) -> Customer {
    Customer {
        id: id.to_string(),
        name: "Al".to_string(),
        class: CustomerType::PERSONAL,
        emails: vec![Email { address: "a@b.com".to_string(), verified: false, main: true }],
        auth_provider: provider,
        password: password.to_string(),
        backup_security_codes: vec![],
        preferences: Preferences {
            dark_mode: false,
            language: "en".to_string(),
            notifications: true,
        },
        subscription: Subscription {
            id: "s".to_string(),
            product_id: 0,
            variant_id: 0,
            slug: Slug::FREE,
            frequency: SubscriptionFrequencyClass::UNDEFINED,
            status: String::new(),
            created_at: "t".to_string(),
            updated_at: "t".to_string(),
            starts_at: String::new(),
            ends_at: String::new(),
            renews_at: String::new(),
            history_logs: vec![],
        },
        created_at: "t".to_string(),
        updated_at: "t".to_string(),
        deleted: false,
    }
}

#[test]
fn scope_names_are_read_and_written() {
    let names = [
        (SessionScopes::ViewPublicID, "view_public_id"),
        (SessionScopes::ViewEmailAddresses, "view_email_addresses"),
        (SessionScopes::ViewPublicProfile, "view_public_profile"),
        (SessionScopes::ViewPrivateSensitiveProfile, "view_private_sensitive_profile"),
        (SessionScopes::ViewSubscription, "view_subscription"),
        (SessionScopes::UpdateName, "update_name"),
        (SessionScopes::UpdateEmailAddresses, "update_email_addresses"),
        (SessionScopes::UpdatePreferences, "update_preferences"),
        (SessionScopes::TotalAccess, "total_access"),
    ];
    for (scope, name) in names {
        assert_eq!(scope.to_string(), name);
        assert_eq!(SessionScopes::from_str(name), Ok(scope));
    }
    assert_eq!(SessionScopes::from_str("root"), Err(UnknownVariant));
    assert_eq!(SessionScopes::from_str(""), Err(UnknownVariant));
    assert_eq!(SessionScopes::from_str("TOTAL_ACCESS"), Err(UnknownVariant));
}

#[test]
fn total_access_is_enough_alone() {
    let granted = vec![SessionScopes::TotalAccess];
    assert!(is_granted(&granted, &vec![SessionScopes::UpdateName]));
    assert!(is_granted(
        &granted,
        &vec![SessionScopes::UpdateName, SessionScopes::ViewSubscription]
    ));
    assert!(is_granted(&granted, &vec![]));
}

#[test]
fn access_needs_every_required_scope() {
    let granted = vec![SessionScopes::UpdateName, SessionScopes::ViewPublicID];
    assert!(is_granted(&granted, &vec![SessionScopes::UpdateName]));
    assert!(is_granted(&granted, &vec![SessionScopes::ViewPublicID, SessionScopes::UpdateName]));
    assert!(!is_granted(
        &granted,
        &vec![SessionScopes::UpdateName, SessionScopes::UpdateEmailAddresses]
    ));
    assert!(!is_granted(&granted, &vec![SessionScopes::TotalAccess]));
    assert!(is_granted(&vec![], &vec![]));
    assert!(!is_granted(&vec![], &vec![SessionScopes::ViewPublicID]));
    assert!(has_scope(&granted, SessionScopes::ViewPublicID));
    assert!(!has_scope(&granted, SessionScopes::TotalAccess));
}

#[test]
fn valid_session_is_resolved() {
    let token = token_for("c1", vec![SessionScopes::ViewPublicID, SessionScopes::UpdateName]);
    let session = get_user_session_from_req(
        &HeaderValue::Text(token),
        &StoreRead::Found("c1".to_string()),
        KEY,
        NOW + 10,
    )
    .unwrap();
    assert_eq!(
        session,
        SessionData {
            customer_id: "c1".to_string(),
            scopes: vec![SessionScopes::ViewPublicID, SessionScopes::UpdateName],
        }
    );
}

#[test]
fn session_without_header_is_unauthorized() {
    let (status, response) =
        get_user_session_from_req(&HeaderValue::Absent, &StoreRead::Missing, KEY, NOW)
            .unwrap_err();
    assert_eq!(status, HttpStatus::UNAUTHORIZED);
    assert_eq!(response.message, "token.not_authorization_header");
}

#[test]
fn session_with_expired_token_is_unauthorized() {
    let token = token_for("c1", vec![SessionScopes::TotalAccess]);
    let (status, response) = get_user_session_from_req(
        &HeaderValue::Text(token),
        &StoreRead::Found("c1".to_string()),
        KEY,
        NOW + 3601,
    )
    .unwrap_err();
    assert_eq!(status, HttpStatus::UNAUTHORIZED);
    assert_eq!(response.message, "unauthorized: token.expired");
    assert_eq!(response.exit_code, 1);
}

#[test]
fn session_with_forged_token_is_unauthorized() {
    let token = create_token(
        &"c1".to_string(),
        vec![SessionScopes::TotalAccess],
        ISSUER,
        b"forger",
        3600,
        NOW,
    )
    .unwrap();
    let (status, response) = get_user_session_from_req(
        &HeaderValue::Text(token),
        &StoreRead::Found("c1".to_string()),
        KEY,
        NOW,
    )
    .unwrap_err();
    assert_eq!(status, HttpStatus::UNAUTHORIZED);
    assert_eq!(response.message, "unauthorized: token.error_validating");
}

#[test]
fn session_that_the_store_lacks_is_unauthorized() {
    let token = token_for("c1", vec![SessionScopes::TotalAccess]);
    let (status, response) =
        get_user_session_from_req(&HeaderValue::Text(token), &StoreRead::Missing, KEY, NOW)
            .unwrap_err();
    assert_eq!(status, HttpStatus::UNAUTHORIZED);
    assert_eq!(response.message, "unauthorized");
}

#[test]
fn failing_store_is_a_server_error() {
    let token = token_for("c1", vec![SessionScopes::TotalAccess]);
    let (status, response) = get_user_session_from_req(
        &HeaderValue::Text(token.clone()),
        &StoreRead::Failed,
        KEY,
        NOW,
    )
    .unwrap_err();
    assert_eq!(status, HttpStatus::INTERNAL_SERVER_ERROR);
    assert_eq!(response.message, "storage.redis_error_fetching");
    let (status, response) =
        get_user_session_from_req(&HeaderValue::Text(token), &StoreRead::Unreachable, KEY, NOW)
            .unwrap_err();
    assert_eq!(status, HttpStatus::INTERNAL_SERVER_ERROR);
    assert_eq!(response.message, "storage.redis_failed_to_connect");
}

#[test]
fn session_of_another_subject_is_unauthorized() {
    let token = token_for("c1", vec![SessionScopes::TotalAccess]);
    let (status, response) = get_user_session_from_req(
        &HeaderValue::Text(token),
        &StoreRead::Found("c2".to_string()),
        KEY,
        NOW,
    )
    .unwrap_err();
    assert_eq!(status, HttpStatus::UNAUTHORIZED);
    assert_eq!(response.message, "unauthorized");
}

#[test]
fn session_without_scopes_is_unauthorized() {
    let token = token_for("c1", vec![]);
    let (status, response) = get_user_session_from_req(
        &HeaderValue::Text(token),
        &StoreRead::Found("c1".to_string()),
        KEY,
        NOW,
    )
    .unwrap_err();
    assert_eq!(status, HttpStatus::UNAUTHORIZED);
    assert_eq!(response.message, "unauthorized");
}

#[test]
fn middleware_admits_by_scope() {
    let token = token_for("c1", vec![SessionScopes::UpdateName]);
    let header = HeaderValue::Text(token);
    let stored = StoreRead::Found("c1".to_string());
    let session =
        identity_middleware(&header, &stored, KEY, NOW, &vec![SessionScopes::UpdateName]).unwrap();
    assert_eq!(session.customer_id, "c1");
    assert!(identity_middleware(&header, &stored, KEY, NOW, &vec![]).is_ok());
    let (status, response) = identity_middleware(
        &header,
        &stored,
        KEY,
        NOW,
        &vec![SessionScopes::UpdateName, SessionScopes::ViewSubscription],
    )
    .unwrap_err();
    assert_eq!(status, HttpStatus::UNAUTHORIZED);
    assert_eq!(response.message, "token.not_allowed_scopes_to_perform_action");
    let (status, response) =
        identity_middleware(&header, &StoreRead::Missing, KEY, NOW, &vec![]).unwrap_err();
    assert_eq!((status, response.message.as_str()), (HttpStatus::UNAUTHORIZED, "unauthorized"));
}

#[test]
fn middleware_admits_total_access_everywhere() {
    let token = token_for("c1", vec![SessionScopes::TotalAccess]);
    let session = identity_middleware(
        &HeaderValue::Text(token),
        &StoreRead::Found("c1".to_string()),
        KEY,
        NOW,
        &vec![SessionScopes::UpdateEmailAddresses, SessionScopes::ViewSubscription],
    )
    .unwrap();
    assert_eq!(session.scopes, vec![SessionScopes::TotalAccess]);
}

#[test]
fn get_session_tells_the_customer() {
    let token = token_for("c1", vec![SessionScopes::TotalAccess]);
    let (status, response) = get_session(
        &HeaderValue::Text(token),
        &StoreRead::Found("c1".to_string()),
        KEY,
        NOW,
    );
    assert_eq!(status, HttpStatus::OK);
    assert_eq!(response.message, "authorized");
    assert_eq!(response.data, ResponseData::Session("c1".to_string()));
    assert_eq!(response.exit_code, 0);
}

#[test]
fn get_session_refuses_an_empty_customer() {
    let token = token_for("", vec![SessionScopes::TotalAccess]);
    let (status, response) = get_session(
        &HeaderValue::Text(token),
        &StoreRead::Found(String::new()),
        KEY,
        NOW,
    );
    assert_eq!(status, HttpStatus::UNAUTHORIZED);
    assert_eq!(response.message, "unauthorized");
}

#[test]
fn renewal_sets_the_token_again() {
    let write = renew_session(
        &HeaderValue::Text("tok".to_string()),
        &StoreRead::Found("c1".to_string()),
    )
    .unwrap();
    assert_eq!(
        write,
        SessionWrite { token: "tok".to_string(), value: "c1".to_string(), ttl: 604800 }
    );
    assert_eq!(SESSION_TTL, 604800);
}

#[test]
fn renewal_of_a_lost_session_is_unauthorized() {
    let header = HeaderValue::Text("tok".to_string());
    let (status, response) = renew_session(&header, &StoreRead::Missing).unwrap_err();
    assert_eq!(status, HttpStatus::UNAUTHORIZED);
    assert_eq!(response.message, "token.expired");
    let (status, response) =
        renew_session(&header, &StoreRead::Found(String::new())).unwrap_err();
    assert_eq!(status, HttpStatus::UNAUTHORIZED);
    assert_eq!(response.message, "token.expired");
    let (status, response) = renew_session(&header, &StoreRead::Failed).unwrap_err();
    assert_eq!(status, HttpStatus::INTERNAL_SERVER_ERROR);
    assert_eq!(response.message, "storage.redis_error_fetching");
    let (status, response) = renew_session(&header, &StoreRead::Unreachable).unwrap_err();
    assert_eq!(status, HttpStatus::INTERNAL_SERVER_ERROR);
    assert_eq!(response.message, "storage.redis_failed_to_connect");
    let (status, _) = renew_session(&HeaderValue::Absent, &StoreRead::Missing).unwrap_err();
    assert_eq!(status, HttpStatus::UNAUTHORIZED);
}

#[test]
fn renewal_replies() {
    let (status, response) = renew_session_reply(StoreWrite::Done);
    assert_eq!((status, response.message.as_str(), response.exit_code), (HttpStatus::OK, "token.renewed", 0));
    let (status, response) = renew_session_reply(StoreWrite::Failed);
    assert_eq!(
        (status, response.message.as_str(), response.exit_code),
        (HttpStatus::INTERNAL_SERVER_ERROR, "token.error_renewing", 1)
    );
    let (status, response) = renew_session_reply(StoreWrite::Unreachable);
    assert_eq!(
        (status, response.message.as_str()),
        (HttpStatus::INTERNAL_SERVER_ERROR, "storage.redis_failed_to_connect")
    );
}

#[test]
fn new_session_replies() {
    let write = SessionWrite { token: "tok".to_string(), value: "c1".to_string(), ttl: 604800 };
    let (status, response) = session_created_reply(write.clone(), StoreWrite::Done);
    assert_eq!(status, HttpStatus::OK);
    assert_eq!(response.message, "token.created");
    assert_eq!(response.data, ResponseData::Token("tok".to_string()));
    assert_eq!(response.exit_code, 0);
    let (status, response) = session_created_reply(write.clone(), StoreWrite::Failed);
    assert_eq!(status, HttpStatus::INTERNAL_SERVER_ERROR);
    assert_eq!(response.message, "storage.redis_error_setting_key");
    assert_eq!(response.data, ResponseData::Empty);
    let (status, response) = session_created_reply(write, StoreWrite::Unreachable);
    assert_eq!(status, HttpStatus::INTERNAL_SERVER_ERROR);
    assert_eq!(response.message, "storage.redis_failed_to_connect");
}

#[test]
fn sign_in_with_the_right_password() {
    let hash = bcrypt::hash("abc12345", 4).unwrap();
    let lookup = Ok(Some(customer("c1", AuthProviders::LEGACY, &hash)));
    let payload = SignIn { email: "A@B.com".to_string(), password: "abc12345".to_string() };
    let filter = legacy_authentication_filter(&payload).unwrap();
    assert_eq!(filter.id, "");
    assert_eq!(filter.email, "a@b.com");
    let write = legacy_authentication(&payload, &lookup, ISSUER, KEY, 3600, NOW).unwrap();
    assert_eq!(write.value, "c1");
    assert_eq!(write.ttl, 604800);
    let claims = validate_token(&write.token, KEY, NOW + 3600).unwrap();
    assert_eq!(claims.sub, "c1");
    assert_eq!(claims.aud, "total_access");
    assert_eq!(claims.iss, ISSUER);
    assert_eq!(claims.exp, (NOW + 3600) as usize);
}

#[test]
fn sign_in_with_the_wrong_password() {
    let hash = bcrypt::hash("abc12345", 4).unwrap();
    let lookup = Ok(Some(customer("c1", AuthProviders::LEGACY, &hash)));
    let payload = SignIn { email: "a@b.com".to_string(), password: "abc12346".to_string() };
    let (status, response) =
        legacy_authentication(&payload, &lookup, ISSUER, KEY, 3600, NOW).unwrap_err();
    assert_eq!(status, HttpStatus::UNAUTHORIZED);
    assert_eq!(response.message, "generic.unauthorized");
}

#[test]
fn sign_in_against_a_broken_hash() {
    let lookup = Ok(Some(customer("c1", AuthProviders::LEGACY, "not a hash")));
    let payload = SignIn { email: "a@b.com".to_string(), password: "abc12345".to_string() };
    let (status, response) =
        legacy_authentication(&payload, &lookup, ISSUER, KEY, 3600, NOW).unwrap_err();
    assert_eq!(status, HttpStatus::INTERNAL_SERVER_ERROR);
    assert_eq!(response.message, "generic.internal_server_error");
}

#[test]
fn sign_in_refusals() {
    let payload = SignIn { email: "not-an-address".to_string(), password: "abc12345".to_string() };
    let (status, response) = legacy_authentication_filter(&payload).unwrap_err();
    assert_eq!((status, response.message.as_str()), (HttpStatus::BAD_REQUEST, "email.invalid"));
    let (status, response) =
        legacy_authentication(&payload, &Ok(None), ISSUER, KEY, 3600, NOW).unwrap_err();
    assert_eq!((status, response.message.as_str()), (HttpStatus::BAD_REQUEST, "email.invalid"));

    let payload = SignIn { email: "a@b.com".to_string(), password: "abc12345".to_string() };
    let (status, response) =
        legacy_authentication(&payload, &Ok(None), ISSUER, KEY, 3600, NOW).unwrap_err();
    assert_eq!((status, response.message.as_str()), (HttpStatus::NOT_FOUND, "customer.not_found"));
    assert_eq!(status.code(), 404);
    let (status, response) =
        legacy_authentication(&payload, &Err(StorageError), ISSUER, KEY, 3600, NOW).unwrap_err();
    assert_eq!(
        (status, response.message.as_str()),
        (HttpStatus::INTERNAL_SERVER_ERROR, "error fetching customer")
    );
    let google = Ok(Some(customer("c1", AuthProviders::GOOGLE, "")));
    let (status, response) =
        legacy_authentication(&payload, &google, ISSUER, KEY, 3600, NOW).unwrap_err();
    assert_eq!(
        (status, response.message.as_str()),
        (HttpStatus::UNAUTHORIZED, "token.only_legacy_provider")
    );
}

#[test]
fn sign_in_is_owed_a_session_whatever_the_key() {
    let hash = bcrypt::hash("abc12345", 4).unwrap();
    let lookup = Ok(Some(customer("c1", AuthProviders::LEGACY, &hash)));
    let payload = SignIn { email: "a@b.com".to_string(), password: "abc12345".to_string() };
    let long_key = vec![7u8; 4096];
    for key in [&b""[..], &b"k"[..], &long_key[..]] {
        let write = legacy_authentication(&payload, &lookup, "", key, 0, 0).unwrap();
        assert_eq!(validate_token(&write.token, key, 0).unwrap().sub, "c1");
    }
    let last = (usize::MAX as u64) - NOW;
    assert!(legacy_authentication(&payload, &lookup, ISSUER, KEY, last, NOW).is_ok());
}

#[test]
fn sign_in_whose_token_cannot_expire_in_time_fails() {
    let hash = bcrypt::hash("abc12345", 4).unwrap();
    let lookup = Ok(Some(customer("c1", AuthProviders::LEGACY, &hash)));
    let payload = SignIn { email: "a@b.com".to_string(), password: "abc12345".to_string() };
    let (status, response) =
        legacy_authentication(&payload, &lookup, ISSUER, KEY, u64::MAX, NOW).unwrap_err();
    assert_eq!(
        (status, response.message.as_str()),
        (HttpStatus::INTERNAL_SERVER_ERROR, "token.error_creating")
    );
}

fn google_user(email: Option<&str>) -> GoogleUserResult {
    GoogleUserResult {
        id: Some("g-1".to_string()),
        email: email.map(|e| e.to_string()),
        verified_email: Some(true),
        name: Some("Al B".to_string()),
        given_name: Some("Al".to_string()),
        family_name: None,
        picture: None,
        locale: Some("en".to_string()),
    }
}

fn code() -> GoogleOAuthQueryParams {
    GoogleOAuthQueryParams { code: Some("4/abc".to_string()), error: None }
}

#[test]
fn google_redirect_must_carry_a_code() {
    assert_eq!(google_authorization_code(&code()).unwrap(), "4/abc");
    let denied = GoogleOAuthQueryParams {
        code: Some("4/abc".to_string()),
        error: Some("access_denied".to_string()),
    };
    let (status, response) = google_authorization_code(&denied).unwrap_err();
    assert_eq!(
        (status, response.message.as_str()),
        (HttpStatus::BAD_REQUEST, "token.error_requesting_google_token")
    );
    let empty = GoogleOAuthQueryParams { code: None, error: None };
    let (status, response) = google_authorization_code(&empty).unwrap_err();
    assert_eq!((status, response.message.as_str()), (HttpStatus::BAD_REQUEST, "token.missing"));
}

#[test]
fn google_sign_in_begins_a_session() {
    let exchange = GoogleExchange::User(google_user(Some("Al@B.com")));
    let filter = google_customer_filter(&exchange).unwrap();
    assert_eq!((filter.id.as_str(), filter.email.as_str()), ("", "al@b.com"));
    let lookup = Ok(Some(customer("c9", AuthProviders::GOOGLE, "")));
    let write =
        gooogle_authentication(&code(), &exchange, &lookup, ISSUER, KEY, 60, NOW).unwrap();
    assert_eq!(write.value, "c9");
    assert_eq!(validate_token(&write.token, KEY, NOW).unwrap().sub, "c9");
}

#[test]
fn google_sign_in_refusals() {
    let user = GoogleExchange::User(google_user(Some("a@b.com")));
    let found = Ok(Some(customer("c9", AuthProviders::GOOGLE, "")));
    let cases: Vec<(GoogleExchange, Result<Option<Customer>, StorageError>, HttpStatus, &str)> = vec![
        (
            GoogleExchange::TokenRefused,
            found.clone(),
            HttpStatus::INTERNAL_SERVER_ERROR,
            "token.error_requesting_google_token",
        ),
        (
            GoogleExchange::UserRefused,
            found.clone(),
            HttpStatus::INTERNAL_SERVER_ERROR,
            "token.error_fetching_user_from_google",
        ),
        (
            GoogleExchange::User(google_user(None)),
            found.clone(),
            HttpStatus::INTERNAL_SERVER_ERROR,
            "token.error_fetching_user_from_google",
        ),
        (user.clone(), Err(StorageError), HttpStatus::INTERNAL_SERVER_ERROR, "error fetching customer"),
        (
            user.clone(),
            Ok(Some(customer("c9", AuthProviders::LEGACY, "h"))),
            HttpStatus::UNAUTHORIZED,
            "token.only_google_provider",
        ),
    ];
    for (exchange, lookup, status, message) in cases {
        let (got, response) =
            gooogle_authentication(&code(), &exchange, &lookup, ISSUER, KEY, 60, NOW).unwrap_err();
        assert_eq!((got, response.message.as_str()), (status, message));
        assert_eq!(response.data, ResponseData::Empty);
    }
}

#[test]
fn google_user_without_record_is_told_to_sign_up() {
    let exchange = GoogleExchange::User(google_user(Some("a@b.com")));
    let (status, response) =
        gooogle_authentication(&code(), &exchange, &Ok(None), ISSUER, KEY, 60, NOW).unwrap_err();
    assert_eq!(status, HttpStatus::NOT_FOUND);
    assert_eq!(response.message, "customer.not_found");
    assert_eq!(response.exit_code, 1);
    assert_eq!(
        response.data,
        ResponseData::CreateCustomerRecord(GoogleProfile {
            openid: Some("g-1".to_string()),
            email: "a@b.com".to_string(),
            verified_email: Some(true),
            name: Some("Al B".to_string()),
            given_name: Some("Al".to_string()),
            family_name: None,
            picture: None,
            locale: Some("en".to_string()),
        })
    );
}
