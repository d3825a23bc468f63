use customer_identity::email::actions::{create_contact_request, verification_email_request};
use customer_identity::server::{
    parse_bool, set_app_state, set_connections, ConnectionEnvironment, Connections, Environment,
};
use customer_identity::storage::{
    build_customer_filter, customer_matches, find_customer, find_position, holds_address,
    mark_verified, CustomerFilter, SubscriptionUpdate,
};
use customer_identity::text::{byte_len, same_text, UnknownVariant};
use customer_identity::types::customer::{
    AuthProviders, Customer, CustomerType, Email, Preferences,
};
use customer_identity::types::email::{
    CreateContact, CreateEmailRequest, Params, SendEmailData, Sender, To,
};
use customer_identity::types::response::{GenericResponse, HttpStatus, ResponseData};
use customer_identity::types::subscription::{
    Slug, Subscription, SubscriptionFeatures, SubscriptionFrequencyClass, SubscriptionHistoryLog,
};
use customer_identity::utilities::api_messages::{
    APIMessages, CustomerMessages, EmailMessages, InputMessages, MongoMessages, RedisMessages,
    TokenMessages,
};
use customer_identity::utilities::helpers::{
    bad_request, fallback, is_match, parse_class,
    payload_analyzer, random_string, refuse, valid_email, valid_password,
};

#[test]
fn valid_emails_are_accepted() {
    for email in ["a@b.com", "first.last+tag@mail.example.org", "x_y@a-b.co", "a@b.museum"] {
        assert_eq!(valid_email(email).ok(), Some(true), "{}", email);
    }
}

#[test]
fn invalid_emails_are_refused() {
    let too_long = format!("{}@example.com", "a".repeat(90));
    for email in [
        "",
        "a@b",
        "a@b.c",
        "A@B.com",
        ".a@b.com",
        "a.@b.com",
        "@b.com",
        "a b@c.com",
        "abcde",
        too_long.as_str(),
    ] {
        let (status, response) = valid_email(email).unwrap_err();
        assert_eq!(status, HttpStatus::BAD_REQUEST, "{}", email);
        assert_eq!(response.message, "email.invalid");
        assert_eq!(response.exit_code, 1);
    }
}

#[test]
fn what_follows_an_address_is_not_judged() {
    for email in ["a@b.com!!", "a@b.museums", "a@b.com and more"] {
        assert_eq!(valid_email(email).ok(), Some(true), "{}", email);
    }
}

#[test]
fn email_length_bounds() {
    assert!(valid_email("a@b.c").is_err());
    assert!(valid_email("a@b.co").is_ok());
    let local = "a".repeat(94);
    let hundred = format!("{}@b.com", local);
    assert_eq!(hundred.len(), 100);
    assert!(valid_email(&hundred).is_ok());
    let over = format!("{}a@b.com", local);
    assert!(valid_email(&over).is_err());
}

#[test]
fn valid_passwords_are_accepted() {
    for password in ["abc12345", "ABC_def_123", "________", "a2345678901234567890"] {
        assert_eq!(valid_password(password).ok(), Some(true), "{}", password);
    }
}

#[test]
fn invalid_passwords_are_refused() {
    let (status, response) = valid_password("abc1234").unwrap_err();
    assert_eq!((status, response.message.as_str()), (HttpStatus::BAD_REQUEST, "generic.invalid_new_password_length"));
    let long = "a".repeat(101);
    let (_, response) = valid_password(&long).unwrap_err();
    assert_eq!(response.message, "generic.invalid_new_password_length");
    for password in ["abc 12345", "abc-12345", "pässword1", "a23456789012345678901"] {
        let (status, response) = valid_password(password).unwrap_err();
        assert_eq!(status, HttpStatus::BAD_REQUEST);
        assert_eq!(
            response.message,
            "generic.password_must_have_at_least_one_letter_and_one_number",
            "{}",
            password
        );
    }
}

#[test]
fn patterns_are_matched_by_the_regex_engine() {
    assert!(is_match(r"^a+b$", "aaab"));
    assert!(!is_match(r"^a+b$", "aaabc"));
    assert!(is_match(r"b", "abc"));
    assert!(!is_match(r"(", "("));
}

#[test]
fn class_is_read_in_any_case() {
    assert_eq!(parse_class("personal").ok(), Some(CustomerType::PERSONAL));
    assert_eq!(parse_class("PERSONAL").ok(), Some(CustomerType::PERSONAL));
    assert_eq!(parse_class("Manager").ok(), Some(CustomerType::MANAGER));
    for class in ["developer", "", "person", " personal"] {
        let (status, response) = parse_class(class).unwrap_err();
        assert_eq!((status, response.message.as_str()), (HttpStatus::BAD_REQUEST, "customer.invalid_type"));
    }
}

#[test]
fn random_strings_are_alphanumeric() {
    for length in [0usize, 1, 10, 15, 30, 200] {
        let s = random_string(length);
        assert_eq!(s.chars().count(), length);
        assert!(s.chars().all(|c| c.is_ascii_alphanumeric()));
    }
    assert_ne!(random_string(30), random_string(30));
}

#[test]
fn payloads_pass_or_are_answered() {
    assert_eq!(payload_analyzer::<u8>(Ok(7)).ok(), Some(7));
    let (status, response) = payload_analyzer::<u8>(Err("missing field `email`".to_string())).unwrap_err();
    assert_eq!(status, HttpStatus::INTERNAL_SERVER_ERROR);
    assert_eq!(response.message, "invalid.payload: missing field `email`");
    assert_eq!(response.exit_code, 1);
    assert_eq!(response.data, ResponseData::Empty);
}

#[test]
fn unknown_paths_are_answered() {
    let (status, response) = fallback("/api/nothing");
    assert_eq!(status, HttpStatus::NOT_FOUND);
    assert_eq!(response.message, "invalid.endpoint./api/nothing");
    assert_eq!(response.exit_code, 1);
}

#[test]
fn refusals_carry_the_message() {
    let (status, response) = bad_request(APIMessages::Conflict);
    assert_eq!((status, response.message.as_str(), response.exit_code), (HttpStatus::BAD_REQUEST, "generic.conflict", 1));
    let (status, response) = refuse(HttpStatus::NOT_FOUND, APIMessages::NotFound);
    assert_eq!((status, response.message.as_str()), (HttpStatus::NOT_FOUND, "generic.not_found"));
    assert_eq!(GenericResponse::success("ok".to_string()).exit_code, 0);
    assert_eq!(GenericResponse::failure("no".to_string()).exit_code, 1);
}

#[test]
fn statuses_have_their_numbers() {
    assert_eq!(HttpStatus::OK.code(), 200);
    assert_eq!(HttpStatus::CREATED.code(), 201);
    assert_eq!(HttpStatus::BAD_REQUEST.code(), 400);
    assert_eq!(HttpStatus::UNAUTHORIZED.code(), 401);
    assert_eq!(HttpStatus::NOT_FOUND.code(), 404);
    assert_eq!(HttpStatus::INTERNAL_SERVER_ERROR.code(), 500);
}

#[test]
fn text_helpers() {
    assert!(same_text("abc", "abc"));
    assert!(!same_text("abc", "abd"));
    assert!(!same_text("abc", "ABC"));
    assert_eq!(byte_len("ä"), 2);
    assert_eq!(byte_len(""), 0);
}

#[test]
fn generic_messages() {
    let cases = [
        (APIMessages::InternalServerError, "generic.internal_server_error"),
        (APIMessages::BadRequest, "generic.bad_request"),
        (APIMessages::Unauthorized, "generic.unauthorized"),
        (APIMessages::NotFound, "generic.not_found"),
        (APIMessages::Forbidden, "generic.forbidden"),
        (APIMessages::Conflict, "generic.conflict"),
        (APIMessages::UnprocessableEntity, "generic.unprocessable_entity"),
        (APIMessages::TooManyRequests, "generic.too_many_requests"),
        (APIMessages::ServiceUnavailable, "generic.service_unavailable"),
        (APIMessages::GatewayTimeout, "generic.gateway_timeout"),
        (APIMessages::Token(TokenMessages::Expired), "token.expired"),
        (APIMessages::Input(InputMessages::InvalidNameLength), "generic.invalid_name_length"),
        (APIMessages::Email(EmailMessages::Taken), "email.taken"),
        (APIMessages::Mongo(MongoMessages::ErrorInserting), "storage.mongo_error_inserting"),
        (APIMessages::Redis(RedisMessages::ErrorDeleting), "storage.redis_error_deleting"),
        (APIMessages::Customer(CustomerMessages::Found), "customer.found"),
    ];
    for (message, text) in cases {
        assert_eq!(message.to_string(), text);
    }
}

#[test]
fn family_messages() {
    assert_eq!(TokenMessages::Missing.to_string(), "token.missing");
    assert_eq!(TokenMessages::NotSigningKeyFound.to_string(), "token.not_signing_key_found");
    assert_eq!(TokenMessages::Created.to_string(), "token.created");
    assert_eq!(TokenMessages::ErrorCreating.to_string(), "token.error_creating");
    assert_eq!(TokenMessages::ErrorValidating.to_string(), "token.error_validating");
    assert_eq!(TokenMessages::Renewed.to_string(), "token.renewed");
    assert_eq!(TokenMessages::ErrorRenewing.to_string(), "token.error_renewing");
    assert_eq!(
        TokenMessages::NotAllowedScopesToPerformAction.to_string(),
        "token.not_allowed_scopes_to_perform_action"
    );
    assert_eq!(TokenMessages::OnlyLegacyProvider.to_string(), "token.only_legacy_provider");
    assert_eq!(TokenMessages::OnlyGoogleProvider.to_string(), "token.only_google_provider");
    assert_eq!(InputMessages::InvalidOldPasswordLength.to_string(), "generic.invalid_old_password_length");
    assert_eq!(
        InputMessages::NewPasswordConfirmationMustMatch.to_string(),
        "generic.new_password_confirmation_must_match"
    );
    assert_eq!(CustomerMessages::Created.to_string(), "customer.created");
    assert_eq!(CustomerMessages::NotFound.to_string(), "customer.not_found");
    assert_eq!(CustomerMessages::ErrorHashingPassword.to_string(), "customer.error_hashing_password");
    assert_eq!(CustomerMessages::EmailAdded.to_string(), "customer.email_added");
    assert_eq!(RedisMessages::FailedToConnect.to_string(), "storage.redis_failed_to_connect");
    assert_eq!(RedisMessages::ErrorFetching.to_string(), "storage.redis_error_fetching");
    assert_eq!(RedisMessages::ErrorSettingKey.to_string(), "storage.redis_error_setting_key");
    assert_eq!(EmailMessages::Verified.to_string(), "email.verified");
    assert_eq!(EmailMessages::TakenByOtherCustomer.to_string(), "email.taken_by_other_customer");
    assert_eq!(EmailMessages::TakenByYou.to_string(), "email.taken_by_you");
    assert_eq!(
        EmailMessages::EmailAndPasswordMustBeDifferent.to_string(),
        "email.and_password_must_be_different"
    );
    assert_eq!(EmailMessages::MaxEmailsReached.to_string(), "email.max_emails_reached");
}

#[test]
fn names_of_plans_kinds_and_providers() {
    assert_eq!(Slug::FREE.to_string(), "free");
    assert_eq!(Slug::PRO.to_string(), "pro");
    assert_eq!(Slug::from_str("free"), Ok(Slug::FREE));
    assert_eq!(Slug::from_str("pro"), Ok(Slug::PRO));
    assert_eq!(Slug::from_str("pro_plus"), Err(UnknownVariant));
    assert_eq!(Slug::from_str(""), Err(UnknownVariant));
    assert_eq!(SubscriptionFrequencyClass::from_str("monthly"), Ok(SubscriptionFrequencyClass::MONTHLY));
    assert_eq!(SubscriptionFrequencyClass::from_str("yearly"), Ok(SubscriptionFrequencyClass::ANNUALLY));
    assert_eq!(SubscriptionFrequencyClass::from_str("undefined"), Ok(SubscriptionFrequencyClass::UNDEFINED));
    assert_eq!(SubscriptionFrequencyClass::from_str("annually"), Err(UnknownVariant));
    assert_eq!(SubscriptionFeatures::from_str("core"), Ok(SubscriptionFeatures::CORE));
    assert_eq!(SubscriptionFeatures::from_str("extra"), Err(UnknownVariant));
    assert_eq!(CustomerType::PERSONAL.to_string(), "personal");
    assert_eq!(CustomerType::MANAGER.to_string(), "manager");
    assert_eq!(CustomerType::DEVELOPER.to_string(), "developer");
    assert_eq!(CustomerType::from_str("developer"), Ok(CustomerType::DEVELOPER));
    assert_eq!(CustomerType::from_str("admin"), Err(UnknownVariant));
    assert_eq!(AuthProviders::GOOGLE.to_string(), "GOOGLE");
    assert_eq!(AuthProviders::LEGACY.to_string(), "LEGACY");
    assert_eq!(AuthProviders::from_str("google"), Ok(AuthProviders::GOOGLE));
    assert_eq!(AuthProviders::from_str("legacy"), Ok(AuthProviders::LEGACY));
    assert_eq!(AuthProviders::from_str("GOOGLE"), Err(UnknownVariant));
}

#[test]
fn contact_request() {
    let r = create_contact_request(vec![3, 4], &"c1".to_string(), &"a@b.com".to_string());
    assert_eq!(
        r,
        CreateContact {
            update_enabled: false,
            email: "a@b.com".to_string(),
            ext_id: "c1".to_string(),
            email_blacklisted: false,
            sms_blacklisted: false,
            list_ids: vec![3, 4],
        }
    );
}

#[test]
fn verification_email() {
    let r = verification_email_request(SendEmailData {
        api_key: "k".to_string(),
        template_id: 9,
        subject: "Verify".to_string(),
        sender_email: "hello@example.com".to_string(),
        sender_name: "Example".to_string(),
        customer_email: "a@b.com".to_string(),
        customer_name: "Al".to_string(),
        verification_link: "https://x/verify?token=t".to_string(),
        greetings_title: "Welcome to Test App Al".to_string(),
    });
    assert_eq!(
        r,
        CreateEmailRequest {
            sender: Sender { email: "hello@example.com".to_string(), name: "Example".to_string() },
            subject: Some("Verify".to_string()),
            template_id: 9,
            params: Params {
                verification_link: "https://x/verify?token=t".to_string(),
                greetings_title: "Welcome to Test App Al".to_string(),
            },
            to: vec![To { email: "a@b.com".to_string(), name: "Al".to_string() }],
            reply_to: To { email: "hello@example.com".to_string(), name: "Example".to_string() },
        }
    );
}

fn customer(id: &str, emails: &[&str]) -> Customer {
    Customer {
        id: id.to_string(),
        name: "n".to_string(),
        class: CustomerType::PERSONAL,
        emails: emails
            .iter()
            .map(|e| Email { address: e.to_string(), verified: false, main: false })
            .collect(),
        auth_provider: AuthProviders::LEGACY,
        password: String::new(),
        backup_security_codes: vec![],
        preferences: Preferences { dark_mode: false, language: "en".to_string(), notifications: true },
        subscription: Subscription {
            id: "s".to_string(),
            product_id: 0,
            variant_id: 0,
            slug: Slug::FREE,
            frequency: SubscriptionFrequencyClass::UNDEFINED,
            status: String::new(),
            created_at: String::new(),
            updated_at: String::new(),
            starts_at: String::new(),
            ends_at: String::new(),
            renews_at: String::new(),
            history_logs: vec![],
        },
        created_at: String::new(),
        updated_at: String::new(),
        deleted: false,
    }
}

#[test]
fn filter_finds_by_id_or_email() {
    let customers = vec![
        customer("c1", &["a@b.com"]),
        customer("c2", &["b@b.com", "c@b.com"]),
        customer("c3", &["a@b.com"]),
    ];
    let by_id = build_customer_filter("c2", "");
    assert_eq!(by_id, CustomerFilter { id: "c2".to_string(), email: String::new() });
    assert_eq!(find_position(&customers, &by_id), Some(1));
    assert_eq!(find_position(&customers, &build_customer_filter("", "c@b.com")), Some(1));
    assert_eq!(find_position(&customers, &build_customer_filter("", "a@b.com")), Some(0));
    assert_eq!(find_position(&customers, &build_customer_filter("c3", "b@b.com")), Some(1));
    assert_eq!(find_position(&customers, &build_customer_filter("", "")), None);
    assert_eq!(find_position(&customers, &build_customer_filter("c4", "z@b.com")), None);
    let (found, who) = find_customer(&customers, &build_customer_filter("c3", ""));
    assert!(found);
    assert_eq!(who.unwrap().id, "c3");
    let (found, who) = find_customer(&customers, &build_customer_filter("nobody", "nobody@b.com"));
    assert!(!found);
    assert_eq!(who, None);
    assert!(customer_matches(&build_customer_filter("x", "c@b.com"), &customers[1]));
    assert!(!customer_matches(&build_customer_filter("x", "C@b.com"), &customers[1]));
    assert!(holds_address(&customers[1].emails, "b@b.com"));
    assert!(!holds_address(&customers[1].emails, "a@b.com"));
}

#[test]
fn only_the_first_entry_with_the_address_is_verified() {
    let mut emails = vec![
        Email { address: "a@b.com".to_string(), verified: false, main: true },
        Email { address: "b@b.com".to_string(), verified: false, main: false },
        Email { address: "b@b.com".to_string(), verified: false, main: false },
    ];
    mark_verified(&mut emails, "b@b.com");
    assert_eq!(
        emails.iter().map(|e| e.verified).collect::<Vec<bool>>(),
        vec![false, true, false]
    );
    let before = emails.clone();
    mark_verified(&mut emails, "z@b.com");
    assert_eq!(emails, before);
}

#[test]
fn subscription_write_sets_only_what_it_names() {
    let mut subscription = customer("c", &[]).subscription;
    subscription.status = "active".to_string();
    subscription.variant_id = 5;
    subscription.history_logs.push(SubscriptionHistoryLog { event: "e0".to_string(), date: "d0".to_string() });
    let before = subscription.clone();
    subscription.apply(SubscriptionUpdate {
        terms: None,
        variant_id: None,
        status: None,
        updated_at: "d1".to_string(),
        log: SubscriptionHistoryLog { event: "e1".to_string(), date: "d1".to_string() },
    });
    assert_eq!(subscription.status, "active");
    assert_eq!(subscription.variant_id, 5);
    assert_eq!(subscription.updated_at, "d1");
    assert_eq!(subscription.history_logs.len(), 2);
    assert_eq!(subscription.history_logs[0], before.history_logs[0]);
    assert_eq!(subscription.id, before.id);
    assert_eq!(subscription.slug, before.slug);
}

fn full_environment() -> Environment {
    Environment {
        api_url: Some("api.example.com".to_string()),
        api_tokens_signing_key: Some("k".to_string()),
        api_tokens_expiration_time: Some("86400".to_string()),
        lemonsqueezy_webhook_signature_key: Some("w".to_string()),
        pro_product_id: Some("100".to_string()),
        pro_monthly_variant_id: Some("11".to_string()),
        pro_annually_variant_id: Some("-12".to_string()),
        enable_email_integration: Some("false".to_string()),
        brevo_master_email_address: Some("hello@example.com".to_string()),
        brevo_master_name: Some("Example".to_string()),
        brevo_email_verify_template_id: Some("7".to_string()),
        brevo_customers_webflow_api_key: Some("brevo".to_string()),
        brevo_customers_list_id: Some("3".to_string()),
        google_oauth_client_id: Some("id".to_string()),
        google_oauth_client_secret: Some("secret".to_string()),
        google_oauth_client_redirect_endpoint: Some("/api/identity/session/google".to_string()),
    }
}

#[test]
fn configuration_is_built_from_the_settings() {
    let state = set_app_state(&full_environment()).unwrap();
    assert_eq!(state.api_url, "api.example.com");
    assert_eq!(state.api_tokens_expiration_time, 86400);
    assert_eq!(state.api_tokens_signing_key, "k");
    assert_eq!(state.lemonsqueezy_webhook_signature_key, "w");
    assert_eq!(state.products.pro_product_id, 100);
    assert_eq!(state.products.pro_monthly_variant_id, 11);
    assert_eq!(state.products.pro_annually_variant_id, -12);
    assert!(!state.enabled_email_integration);
    assert_eq!(state.master_email_entity.email, "hello@example.com");
    assert_eq!(state.master_email_entity.name, "Example");
    assert_eq!(state.email_provider_settings.email_verification_template_id, 7);
    assert_eq!(state.google_auth.client_id, "id");
    assert_eq!(state.google_auth.client_secret, "secret");
    assert_eq!(state.google_auth.redirect_url, "https://api.example.com/api/identity/session/google");
    let marketing = state.marketing.unwrap();
    assert_eq!(marketing.api_key, "brevo");
    assert_eq!(marketing.customers_list_id, Some(3));
}

#[test]
fn every_missing_setting_is_named() {
    let empty = Environment {
        api_url: None,
        api_tokens_signing_key: None,
        api_tokens_expiration_time: None,
        lemonsqueezy_webhook_signature_key: None,
        pro_product_id: None,
        pro_monthly_variant_id: None,
        pro_annually_variant_id: None,
        enable_email_integration: None,
        brevo_master_email_address: None,
        brevo_master_name: None,
        brevo_email_verify_template_id: None,
        brevo_customers_webflow_api_key: None,
        brevo_customers_list_id: None,
        google_oauth_client_id: None,
        google_oauth_client_secret: None,
        google_oauth_client_redirect_endpoint: None,
    };
    assert_eq!(
        set_app_state(&empty).unwrap_err(),
        vec![
            "API_URL",
            "API_TOKENS_SIGNING_KEY",
            "API_TOKENS_EXPIRATION_TIME",
            "LEMONSQUEEZY_WEBHOOK_SIGNATURE_KEY",
            "PRO_PRODUCT_ID",
            "PRO_MONTHLY_VARIANT_ID",
            "PRO_ANNUALLY_VARIANT_ID",
            "ENABLE_EMAIL_INTEGRATION",
            "BREVO_MASTER_EMAIL_ADDRESS",
            "BREVO_MASTER_NAME",
            "BREVO_EMAIL_VERIFY_TEMPLATE_ID",
            "GOOGLE_OAUTH_CLIENT_ID",
            "GOOGLE_OAUTH_CLIENT_SECRET",
            "GOOGLE_OAUTH_CLIENT_REDIRECT_ENDPOINT",
        ]
    );
}

#[test]
fn malformed_settings_are_named() {
    let env = Environment {
        api_tokens_expiration_time: Some("a day".to_string()),
        pro_product_id: Some("1.5".to_string()),
        enable_email_integration: Some("yes".to_string()),
        brevo_email_verify_template_id: Some("-1".to_string()),
        google_oauth_client_id: None,
        ..full_environment()
    };
    assert_eq!(
        set_app_state(&env).unwrap_err(),
        vec![
            "API_TOKENS_EXPIRATION_TIME",
            "PRO_PRODUCT_ID",
            "ENABLE_EMAIL_INTEGRATION",
            "BREVO_EMAIL_VERIFY_TEMPLATE_ID",
            "GOOGLE_OAUTH_CLIENT_ID",
        ]
    );
}

#[test]
fn negative_lifetime_of_tokens_is_a_problem() {
    let env = Environment {
        api_tokens_expiration_time: Some("-1".to_string()),
        ..full_environment()
    };
    assert_eq!(set_app_state(&env).unwrap_err(), vec!["API_TOKENS_EXPIRATION_TIME"]);
    let env = Environment {
        api_tokens_expiration_time: Some("0".to_string()),
        ..full_environment()
    };
    assert_eq!(set_app_state(&env).unwrap().api_tokens_expiration_time, 0);
}

#[test]
fn email_integration_brings_defaults() {
    let env = Environment {
        enable_email_integration: Some("true".to_string()),
        brevo_master_email_address: None,
        brevo_master_name: None,
        brevo_email_verify_template_id: None,
        brevo_customers_list_id: None,
        ..full_environment()
    };
    let state = set_app_state(&env).unwrap();
    assert!(state.enabled_email_integration);
    assert_eq!(state.master_email_entity.email, "test@example.com");
    assert_eq!(state.master_email_entity.name, "My Example Company");
    assert_eq!(state.email_provider_settings.email_verification_template_id, 1);
    assert_eq!(state.marketing.unwrap().customers_list_id, Some(1));
    let without_key = Environment { brevo_customers_webflow_api_key: None, ..env };
    assert_eq!(set_app_state(&without_key).unwrap().marketing, None);
}

#[test]
fn truth_values_are_spelled_out() {
    assert_eq!(parse_bool("true"), Some(true));
    assert_eq!(parse_bool("false"), Some(false));
    assert_eq!(parse_bool("True"), None);
    assert_eq!(parse_bool("1"), None);
    assert_eq!(parse_bool(""), None);
}

#[test]
fn customers_list_follows_the_settings() {
    let off = Environment { brevo_customers_list_id: None, ..full_environment() };
    let marketing = set_app_state(&off).unwrap().marketing.unwrap();
    assert_eq!(marketing.api_key, "brevo");
    assert_eq!(marketing.customers_list_id, None);
    let unreadable =
        Environment { brevo_customers_list_id: Some("main".to_string()), ..full_environment() };
    assert_eq!(set_app_state(&unreadable).unwrap().marketing.unwrap().customers_list_id, Some(1));
}

fn connection_environment() -> ConnectionEnvironment {
    ConnectionEnvironment {
        host: Some("0.0.0.0".to_string()),
        port: Some("8080".to_string()),
        mongo_uri: Some("mongodb://localhost".to_string()),
        mongo_db_name: Some("customers".to_string()),
        redis_uri: Some("redis://localhost".to_string()),
        postgres_uri: None,
    }
}

#[test]
fn connections_are_read_from_the_settings() {
    assert_eq!(
        set_connections(&connection_environment()),
        Ok(Connections {
            address: "0.0.0.0:8080".to_string(),
            mongo_uri: "mongodb://localhost".to_string(),
            mongo_db_name: "customers".to_string(),
            redis_uri: "redis://localhost".to_string(),
            postgres_uri: None,
        })
    );
    let with_postgres = ConnectionEnvironment {
        postgres_uri: Some("postgres://localhost".to_string()),
        port: Some("65535".to_string()),
        ..connection_environment()
    };
    let connections = set_connections(&with_postgres).unwrap();
    assert_eq!(connections.postgres_uri, Some("postgres://localhost".to_string()));
    assert_eq!(connections.address, "0.0.0.0:65535");
    let empty_postgres =
        ConnectionEnvironment { postgres_uri: Some(String::new()), ..connection_environment() };
    assert_eq!(set_connections(&empty_postgres).unwrap().postgres_uri, None);
}

#[test]
fn every_missing_connection_setting_is_named() {
    let empty = ConnectionEnvironment {
        host: None,
        port: None,
        mongo_uri: None,
        mongo_db_name: None,
        redis_uri: None,
        postgres_uri: None,
    };
    assert_eq!(
        set_connections(&empty).unwrap_err(),
        vec!["HOST", "PORT", "MONGO_URI", "MONGO_DB_NAME", "REDIS_URI"]
    );
}

#[test]
fn port_must_be_a_number_up_to_65535() {
    for port in ["http", "", "65536", "-1", "80.0", "99999999999"] {
        let env = ConnectionEnvironment { port: Some(port.to_string()), ..connection_environment() };
        assert_eq!(set_connections(&env).unwrap_err(), vec!["PORT"], "{}", port);
    }
    for port in ["0", "80", "65535"] {
        let env = ConnectionEnvironment { port: Some(port.to_string()), ..connection_environment() };
        assert!(set_connections(&env).is_ok(), "{}", port);
    }
}
