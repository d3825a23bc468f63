//! The configuration of the service: built once at start-up from the
//! process's settings, checked as a whole, and never changed afterwards.

use vstd::prelude::*;
use crate::text::same_text;
use crate::types::lemonsqueezy::Products;

verus! {

/// Who the service's emails are from.
#[derive(Clone, Debug, PartialEq, Eq)]
pub struct MasterEmailEntity {
    pub email: String,
    pub name: String,
}

/// The email provider's settings.
#[derive(Clone, Debug, PartialEq, Eq)]
pub struct EmailProviderSettings {
    pub email_verification_template_id: u32,
}

/// The service's identity at Google.
#[derive(Clone, Debug, PartialEq, Eq)]
pub struct GoogleAuth {
    pub client_id: String,
    pub client_secret: String,
    pub redirect_url: String,
}

/// The marketing platform's settings.
#[derive(Clone, Debug, PartialEq, Eq)]
pub struct MarketingSettings {
    pub api_key: String,
    /// The list that new customers are put on. Without a list no contact is
    /// registered.
    pub customers_list_id: Option<u32>,
}

/// The configuration every handler works with.
#[derive(Clone, Debug, PartialEq, Eq)]
pub struct AppState {
    pub api_url: String,
    /// The seconds a session token and a verification token live.
    pub api_tokens_expiration_time: u64,
    pub api_tokens_signing_key: String,
    pub lemonsqueezy_webhook_signature_key: String,
    pub products: Products,
    pub enabled_email_integration: bool,
    pub master_email_entity: MasterEmailEntity,
    pub email_provider_settings: EmailProviderSettings,
    pub google_auth: GoogleAuth,
    /// Present if the key of the email provider, which is the marketing
    /// platform too, is set.
    pub marketing: Option<MarketingSettings>,
}

/// The settings of the process, each as it was found, under the name of its
/// variable.
#[derive(Clone, Debug, PartialEq, Eq)]
pub struct Environment {
    pub api_url: Option<String>,
    pub api_tokens_signing_key: Option<String>,
    pub api_tokens_expiration_time: Option<String>,
    pub lemonsqueezy_webhook_signature_key: Option<String>,
    pub pro_product_id: Option<String>,
    pub pro_monthly_variant_id: Option<String>,
    pub pro_annually_variant_id: Option<String>,
    pub enable_email_integration: Option<String>,
    pub brevo_master_email_address: Option<String>,
    pub brevo_master_name: Option<String>,
    pub brevo_email_verify_template_id: Option<String>,
    pub brevo_customers_webflow_api_key: Option<String>,
    pub brevo_customers_list_id: Option<String>,
    pub google_oauth_client_id: Option<String>,
    pub google_oauth_client_secret: Option<String>,
    pub google_oauth_client_redirect_endpoint: Option<String>,
}

/// The number that a text is, as `str::parse::<i64>` reads it.
pub uninterp spec fn parsed_i64(text: Seq<char>) -> Option<i64>;

/// The number that a text is, as `str::parse::<u32>` reads it.
pub uninterp spec fn parsed_u32(text: Seq<char>) -> Option<u32>;

/// Calls `str::parse::<i64>`. The contract names the result.
#[verifier::external_body]
fn parse_i64(text: &str) -> (r: Option<i64>)
    ensures
        r == parsed_i64(text@),
{
    text.parse::<i64>().ok()
}

/// Calls `str::parse::<u32>`. The contract names the result.
#[verifier::external_body]
fn parse_u32(text: &str) -> (r: Option<u32>)
    ensures
        r == parsed_u32(text@),
{
    text.parse::<u32>().ok()
}

/// The truth value that a text is: `true` or `false`, spelled so.
pub open spec fn parsed_bool(text: Seq<char>) -> Option<bool> {
    if text == "true"@ {
        Some(true)
    } else if text == "false"@ {
        Some(false)
    } else {
        None
    }
}

/// The list with the key, if there is a problem, and the empty list if not.
#[verifier::opaque]
pub open spec fn problem(bad: bool, key: Seq<char>) -> Seq<Seq<char>> {
    if bad {
        seq![key]
    } else {
        Seq::empty()
    }
}

/// The number of a setting, if it is there and is a number.
pub open spec fn number_of(value: Option<String>) -> Option<i64> {
    match value {
        Some(text) => parsed_i64(text@),
        None => None,
    }
}

/// The lifetime of tokens that a setting gives, in seconds, if it is there
/// and is a number that is not negative.
pub open spec fn lifetime_of(value: Option<String>) -> Option<u64> {
    match number_of(value) {
        Some(n) => if n >= 0 {
            Some(n as u64)
        } else {
            None
        },
        None => None,
    }
}

/// The truth value of a setting, if it is there and is one.
pub open spec fn flag_of(value: Option<String>) -> Option<bool> {
    match value {
        Some(text) => parsed_bool(text@),
        None => None,
    }
}

/// The template of a setting, if it is there and is a number.
pub open spec fn template_of(value: Option<String>) -> Option<u32> {
    match value {
        Some(text) => parsed_u32(text@),
        None => None,
    }
}

/// Whether email integration is switched on.
pub open spec fn integration_enabled(env: Environment) -> bool {
    flag_of(env.enable_email_integration) == Some(true)
}

/// The names of the settings that are missing or cannot be read, in a fixed
/// order. A negative lifetime of tokens cannot be read as one. With email
/// integration switched on, the sender and the template have defaults and are
/// never a problem for being missing.
pub open spec fn configuration_problems(env: Environment) -> Seq<Seq<char>> {
    problem(env.api_url is None, "API_URL"@) + problem(
        env.api_tokens_signing_key is None,
        "API_TOKENS_SIGNING_KEY"@,
    ) + problem(
        lifetime_of(env.api_tokens_expiration_time) is None,
        "API_TOKENS_EXPIRATION_TIME"@,
    ) + problem(
        env.lemonsqueezy_webhook_signature_key is None,
        "LEMONSQUEEZY_WEBHOOK_SIGNATURE_KEY"@,
    ) + problem(number_of(env.pro_product_id) is None, "PRO_PRODUCT_ID"@) + problem(
        number_of(env.pro_monthly_variant_id) is None,
        "PRO_MONTHLY_VARIANT_ID"@,
    ) + problem(number_of(env.pro_annually_variant_id) is None, "PRO_ANNUALLY_VARIANT_ID"@)
        + problem(flag_of(env.enable_email_integration) is None, "ENABLE_EMAIL_INTEGRATION"@)
        + problem(
        env.brevo_master_email_address is None && !integration_enabled(env),
        "BREVO_MASTER_EMAIL_ADDRESS"@,
    ) + problem(
        env.brevo_master_name is None && !integration_enabled(env),
        "BREVO_MASTER_NAME"@,
    ) + problem(
        if env.brevo_email_verify_template_id is None {
            !integration_enabled(env)
        } else {
            template_of(env.brevo_email_verify_template_id) is None
        },
        "BREVO_EMAIL_VERIFY_TEMPLATE_ID"@,
    ) + problem(env.google_oauth_client_id is None, "GOOGLE_OAUTH_CLIENT_ID"@) + problem(
        env.google_oauth_client_secret is None,
        "GOOGLE_OAUTH_CLIENT_SECRET"@,
    ) + problem(
        env.google_oauth_client_redirect_endpoint is None,
        "GOOGLE_OAUTH_CLIENT_REDIRECT_ENDPOINT"@,
    )
}

/// Whether every setting that is needed is there and can be read.
pub open spec fn all_readable(env: Environment) -> bool {
    &&& env.api_url is Some
    &&& env.api_tokens_signing_key is Some
    &&& lifetime_of(env.api_tokens_expiration_time) is Some
    &&& env.lemonsqueezy_webhook_signature_key is Some
    &&& number_of(env.pro_product_id) is Some
    &&& number_of(env.pro_monthly_variant_id) is Some
    &&& number_of(env.pro_annually_variant_id) is Some
    &&& flag_of(env.enable_email_integration) is Some
    &&& (env.brevo_master_email_address is Some || integration_enabled(env))
    &&& (env.brevo_master_name is Some || integration_enabled(env))
    &&& if env.brevo_email_verify_template_id is None {
        integration_enabled(env)
    } else {
        template_of(env.brevo_email_verify_template_id) is Some
    }
    &&& env.google_oauth_client_id is Some
    &&& env.google_oauth_client_secret is Some
    &&& env.google_oauth_client_redirect_endpoint is Some
}

proof fn lemma_problem_len(bad: bool, key: Seq<char>)
    ensures
        problem(bad, key).len() == (if bad {
            1nat
        } else {
            0nat
        }),
{
    reveal(problem);
}

/// No setting is named as a problem exactly when every setting that is
/// needed is there and can be read.
pub proof fn lemma_no_problems(env: Environment)
    ensures
        configuration_problems(env).len() == 0 <==> all_readable(env),
{
    let p1 = problem(
        env.api_url is None,
        "API_URL"@,
    );
    lemma_problem_len(
        env.api_url is None,
        "API_URL"@,
    );
    let p2 = problem(
        env.api_tokens_signing_key is None,
        "API_TOKENS_SIGNING_KEY"@,
    );
    lemma_problem_len(
        env.api_tokens_signing_key is None,
        "API_TOKENS_SIGNING_KEY"@,
    );
    let p3 = problem(
        lifetime_of(env.api_tokens_expiration_time) is None,
        "API_TOKENS_EXPIRATION_TIME"@,
    );
    lemma_problem_len(
        lifetime_of(env.api_tokens_expiration_time) is None,
        "API_TOKENS_EXPIRATION_TIME"@,
    );
    let p4 = problem(
        env.lemonsqueezy_webhook_signature_key is None,
        "LEMONSQUEEZY_WEBHOOK_SIGNATURE_KEY"@,
    );
    lemma_problem_len(
        env.lemonsqueezy_webhook_signature_key is None,
        "LEMONSQUEEZY_WEBHOOK_SIGNATURE_KEY"@,
    );
    let p5 = problem(
        number_of(env.pro_product_id) is None,
        "PRO_PRODUCT_ID"@,
    );
    lemma_problem_len(
        number_of(env.pro_product_id) is None,
        "PRO_PRODUCT_ID"@,
    );
    let p6 = problem(
        number_of(env.pro_monthly_variant_id) is None,
        "PRO_MONTHLY_VARIANT_ID"@,
    );
    lemma_problem_len(
        number_of(env.pro_monthly_variant_id) is None,
        "PRO_MONTHLY_VARIANT_ID"@,
    );
    let p7 = problem(
        number_of(env.pro_annually_variant_id) is None,
        "PRO_ANNUALLY_VARIANT_ID"@,
    );
    lemma_problem_len(
        number_of(env.pro_annually_variant_id) is None,
        "PRO_ANNUALLY_VARIANT_ID"@,
    );
    let p8 = problem(
        flag_of(env.enable_email_integration) is None,
        "ENABLE_EMAIL_INTEGRATION"@,
    );
    lemma_problem_len(
        flag_of(env.enable_email_integration) is None,
        "ENABLE_EMAIL_INTEGRATION"@,
    );
    let p9 = problem(
        env.brevo_master_email_address is None && !integration_enabled(env),
        "BREVO_MASTER_EMAIL_ADDRESS"@,
    );
    lemma_problem_len(
        env.brevo_master_email_address is None && !integration_enabled(env),
        "BREVO_MASTER_EMAIL_ADDRESS"@,
    );
    let p10 = problem(
        env.brevo_master_name is None && !integration_enabled(env),
        "BREVO_MASTER_NAME"@,
    );
    lemma_problem_len(
        env.brevo_master_name is None && !integration_enabled(env),
        "BREVO_MASTER_NAME"@,
    );
    let p11 = problem(
        if env.brevo_email_verify_template_id is None {
            !integration_enabled(env)
        } else {
            template_of(env.brevo_email_verify_template_id) is None
        },
        "BREVO_EMAIL_VERIFY_TEMPLATE_ID"@,
    );
    lemma_problem_len(
        if env.brevo_email_verify_template_id is None {
            !integration_enabled(env)
        } else {
            template_of(env.brevo_email_verify_template_id) is None
        },
        "BREVO_EMAIL_VERIFY_TEMPLATE_ID"@,
    );
    let p12 = problem(
        env.google_oauth_client_id is None,
        "GOOGLE_OAUTH_CLIENT_ID"@,
    );
    lemma_problem_len(
        env.google_oauth_client_id is None,
        "GOOGLE_OAUTH_CLIENT_ID"@,
    );
    let p13 = problem(
        env.google_oauth_client_secret is None,
        "GOOGLE_OAUTH_CLIENT_SECRET"@,
    );
    lemma_problem_len(
        env.google_oauth_client_secret is None,
        "GOOGLE_OAUTH_CLIENT_SECRET"@,
    );
    let p14 = problem(
        env.google_oauth_client_redirect_endpoint is None,
        "GOOGLE_OAUTH_CLIENT_REDIRECT_ENDPOINT"@,
    );
    lemma_problem_len(
        env.google_oauth_client_redirect_endpoint is None,
        "GOOGLE_OAUTH_CLIENT_REDIRECT_ENDPOINT"@,
    );
    let s1 = p1;
    let s2 = s1 + p2;
    assert(s2.len() == s1.len() + p2.len());
    let s3 = s2 + p3;
    assert(s3.len() == s2.len() + p3.len());
    let s4 = s3 + p4;
    assert(s4.len() == s3.len() + p4.len());
    let s5 = s4 + p5;
    assert(s5.len() == s4.len() + p5.len());
    let s6 = s5 + p6;
    assert(s6.len() == s5.len() + p6.len());
    let s7 = s6 + p7;
    assert(s7.len() == s6.len() + p7.len());
    let s8 = s7 + p8;
    assert(s8.len() == s7.len() + p8.len());
    let s9 = s8 + p9;
    assert(s9.len() == s8.len() + p9.len());
    let s10 = s9 + p10;
    assert(s10.len() == s9.len() + p10.len());
    let s11 = s10 + p11;
    assert(s11.len() == s10.len() + p11.len());
    let s12 = s11 + p12;
    assert(s12.len() == s11.len() + p12.len());
    let s13 = s12 + p13;
    assert(s13.len() == s12.len() + p13.len());
    let s14 = s13 + p14;
    assert(s14.len() == s13.len() + p14.len());
    assert(configuration_problems(env) == s14);
}

/// The address Google redirects to: the service's own, over HTTPS.
pub open spec fn redirect_url(api_url: Seq<char>, endpoint: Seq<char>) -> Seq<char> {
    "https://"@ + api_url + endpoint
}

/// Notes a problem with a setting.
fn note(bad: bool, key: &str, problems: &mut Vec<String>)
    ensures
        final(problems).deep_view() == old(problems).deep_view() + problem(bad, key@),
{
    let ghost before = problems.deep_view();
    proof {
        reveal(problem);
    }
    if bad {
        problems.push(key.to_string());
        assert(problems.deep_view() =~= before + seq![key@]);
    } else {
        assert(problems.deep_view() =~= before + Seq::<Seq<char>>::empty());
    }
}

/// The text of a setting; a problem if it is missing.
fn take_text(value: &Option<String>, key: &str, problems: &mut Vec<String>) -> (r: String)
    ensures
        final(problems).deep_view() == old(problems).deep_view() + problem(value is None, key@),
        value matches Some(text) ==> r@ == text@,
{
    note(value.is_none(), key, problems);
    match value {
        Some(text) => text.clone(),
        None => String::new(),
    }
}

/// The text of a setting, or a default if it is missing and defaults apply;
/// a problem if it is missing and they do not.
fn take_text_or(
    value: &Option<String>,
    key: &str,
    fallback: &str,
    defaults: bool,
    problems: &mut Vec<String>,
) -> (r: String)
    ensures
        final(problems).deep_view() == old(problems).deep_view() + problem(
            value is None && !defaults,
            key@,
        ),
        value matches Some(text) ==> r@ == text@,
        value is None ==> r@ == fallback@,
{
    note(value.is_none() && !defaults, key, problems);
    match value {
        Some(text) => text.clone(),
        None => fallback.to_string(),
    }
}

/// The number of a setting; a problem if it is missing or no number.
fn take_number(value: &Option<String>, key: &str, problems: &mut Vec<String>) -> (r: i64)
    ensures
        final(problems).deep_view() == old(problems).deep_view() + problem(
            number_of(*value) is None,
            key@,
        ),
        number_of(*value) matches Some(n) ==> r == n,
{
    let number = match value {
        Some(text) => parse_i64(text.as_str()),
        None => None,
    };
    note(number.is_none(), key, problems);
    match number {
        Some(n) => n,
        None => 0,
    }
}

/// The lifetime of tokens that a setting gives; a problem if it is missing,
/// no number, or negative.
fn take_lifetime(value: &Option<String>, key: &str, problems: &mut Vec<String>) -> (r: u64)
    ensures
        final(problems).deep_view() == old(problems).deep_view() + problem(
            lifetime_of(*value) is None,
            key@,
        ),
        lifetime_of(*value) matches Some(n) ==> r == n,
{
    let number = match value {
        Some(text) => parse_i64(text.as_str()),
        None => None,
    };
    let lifetime: Option<u64> = match number {
        Some(n) => if n >= 0 {
            Some(n as u64)
        } else {
            None
        },
        None => None,
    };
    note(lifetime.is_none(), key, problems);
    match lifetime {
        Some(n) => n,
        None => 0,
    }
}

/// Reads a truth value.
pub fn parse_bool(text: &str) -> (r: Option<bool>)
    ensures
        r == parsed_bool(text@),
{
    if same_text(text, "true") {
        Some(true)
    } else if same_text(text, "false") {
        Some(false)
    } else {
        None
    }
}

/// The list that new customers are put on: the one that is set, list 1 if
/// what is set is no number, list 1 as well if none is set and email
/// integration is switched on, and none otherwise.
pub open spec fn customers_list(env: Environment) -> Option<u32> {
    match env.brevo_customers_list_id {
        Some(text) => Some(
            match parsed_u32(text@) {
                Some(n) => n,
                None => 1,
            },
        ),
        None => if integration_enabled(env) {
            Some(1)
        } else {
            None
        },
    }
}

/// What a valid configuration is made of.
pub open spec fn is_configuration_of(state: AppState, env: Environment) -> bool {
    &&& state.api_url@ == env.api_url.unwrap()@
    &&& Some(state.api_tokens_expiration_time) == lifetime_of(env.api_tokens_expiration_time)
    &&& state.api_tokens_signing_key@ == env.api_tokens_signing_key.unwrap()@
    &&& state.lemonsqueezy_webhook_signature_key@
        == env.lemonsqueezy_webhook_signature_key.unwrap()@
    &&& Some(state.products.pro_product_id) == number_of(env.pro_product_id)
    &&& Some(state.products.pro_monthly_variant_id) == number_of(env.pro_monthly_variant_id)
    &&& Some(state.products.pro_annually_variant_id) == number_of(env.pro_annually_variant_id)
    &&& state.enabled_email_integration == integration_enabled(env)
    &&& state.master_email_entity.email@ == (match env.brevo_master_email_address {
        Some(text) => text@,
        None => "test@example.com"@,
    })
    &&& state.master_email_entity.name@ == (match env.brevo_master_name {
        Some(text) => text@,
        None => "My Example Company"@,
    })
    &&& state.email_provider_settings.email_verification_template_id == (
    match template_of(env.brevo_email_verify_template_id) {
        Some(n) => n,
        None => 1,
    })
    &&& state.google_auth.client_id@ == env.google_oauth_client_id.unwrap()@
    &&& state.google_auth.client_secret@ == env.google_oauth_client_secret.unwrap()@
    &&& state.google_auth.redirect_url@ == redirect_url(
        env.api_url.unwrap()@,
        env.google_oauth_client_redirect_endpoint.unwrap()@,
    )
    &&& match env.brevo_customers_webflow_api_key {
        None => state.marketing is None,
        Some(key) => state.marketing matches Some(marketing) && marketing.api_key@ == key@
            && marketing.customers_list_id == customers_list(env),
    }
}

/// Builds the configuration from the settings of the process.
///
/// Every setting is looked at before anything is decided: if one or more are
/// missing or cannot be read, the names of all of them are given back, in a
/// fixed order, and no configuration is built.
pub fn set_app_state(env: &Environment) -> (r: Result<AppState, Vec<String>>)
    ensures
        match r {
            Ok(state) => all_readable(*env) && configuration_problems(*env).len() == 0
                && is_configuration_of(state, *env),
            Err(problems) => problems.deep_view() == configuration_problems(*env)
                && problems@.len() > 0,
        },
{
    let mut problems: Vec<String> = Vec::new();
    assert(problems.deep_view() =~= Seq::<Seq<char>>::empty());
    let api_url = take_text(&env.api_url, "API_URL", &mut problems);
    let signing_key = take_text(&env.api_tokens_signing_key, "API_TOKENS_SIGNING_KEY", &mut problems);
    let expiration = take_lifetime(
        &env.api_tokens_expiration_time,
        "API_TOKENS_EXPIRATION_TIME",
        &mut problems,
    );
    let signature_key = take_text(
        &env.lemonsqueezy_webhook_signature_key,
        "LEMONSQUEEZY_WEBHOOK_SIGNATURE_KEY",
        &mut problems,
    );
    let pro_product_id = take_number(&env.pro_product_id, "PRO_PRODUCT_ID", &mut problems);
    let pro_monthly_variant_id = take_number(
        &env.pro_monthly_variant_id,
        "PRO_MONTHLY_VARIANT_ID",
        &mut problems,
    );
    let pro_annually_variant_id = take_number(
        &env.pro_annually_variant_id,
        "PRO_ANNUALLY_VARIANT_ID",
        &mut problems,
    );
    let flag = match &env.enable_email_integration {
        Some(text) => parse_bool(text.as_str()),
        None => None,
    };
    note(flag.is_none(), "ENABLE_EMAIL_INTEGRATION", &mut problems);
    let enabled = match flag {
        Some(enabled) => enabled,
        None => false,
    };
    let master_email = take_text_or(
        &env.brevo_master_email_address,
        "BREVO_MASTER_EMAIL_ADDRESS",
        "test@example.com",
        enabled,
        &mut problems,
    );
    let master_name = take_text_or(
        &env.brevo_master_name,
        "BREVO_MASTER_NAME",
        "My Example Company",
        enabled,
        &mut problems,
    );
    let template = match &env.brevo_email_verify_template_id {
        Some(text) => parse_u32(text.as_str()),
        None => None,
    };
    note(
        if env.brevo_email_verify_template_id.is_none() {
            !enabled
        } else {
            template.is_none()
        },
        "BREVO_EMAIL_VERIFY_TEMPLATE_ID",
        &mut problems,
    );
    let client_id = take_text(&env.google_oauth_client_id, "GOOGLE_OAUTH_CLIENT_ID", &mut problems);
    let client_secret = take_text(
        &env.google_oauth_client_secret,
        "GOOGLE_OAUTH_CLIENT_SECRET",
        &mut problems,
    );
    let endpoint = take_text(
        &env.google_oauth_client_redirect_endpoint,
        "GOOGLE_OAUTH_CLIENT_REDIRECT_ENDPOINT",
        &mut problems,
    );
    assert(problems.deep_view() == configuration_problems(*env));
    if problems.len() > 0 {
        return Err(problems);
    }
    proof {
        lemma_no_problems(*env);
    }
    let marketing = match &env.brevo_customers_webflow_api_key {
        None => None,
        Some(key) => {
            let list: Option<u32> = match &env.brevo_customers_list_id {
                Some(text) => match parse_u32(text.as_str()) {
                    Some(n) => Some(n),
                    None => Some(1),
                },
                None => if enabled {
                    Some(1)
                } else {
                    None
                },
            };
            Some(MarketingSettings { api_key: key.clone(), customers_list_id: list })
        },
    };
    let mut redirect = "https://".to_string();
    redirect.append(api_url.as_str());
    redirect.append(endpoint.as_str());
    let state = AppState {
            api_url,
            api_tokens_expiration_time: expiration,
            api_tokens_signing_key: signing_key,
            lemonsqueezy_webhook_signature_key: signature_key,
            products: Products { pro_product_id, pro_monthly_variant_id, pro_annually_variant_id },
            enabled_email_integration: enabled,
            master_email_entity: MasterEmailEntity { email: master_email, name: master_name },
            email_provider_settings: EmailProviderSettings {
                email_verification_template_id: match template {
                    Some(n) => n,
                    None => 1,
                },
            },
            google_auth: GoogleAuth { client_id, client_secret, redirect_url: redirect },
            marketing,
        };
    assert(is_configuration_of(state, *env));
    Ok(state)
}

/// The settings of the process that say where to listen and what to
/// connect to, each as it was found.
#[derive(Clone, Debug, PartialEq, Eq)]
pub struct ConnectionEnvironment {
    pub host: Option<String>,
    pub port: Option<String>,
    pub mongo_uri: Option<String>,
    pub mongo_db_name: Option<String>,
    pub redis_uri: Option<String>,
    pub postgres_uri: Option<String>,
}

/// Where the service listens and what it connects to.
#[derive(Clone, Debug, PartialEq, Eq)]
pub struct Connections {
    /// Host and port, with a colon between them.
    pub address: String,
    pub mongo_uri: String,
    pub mongo_db_name: String,
    pub redis_uri: String,
    /// Present if a relational database is configured.
    pub postgres_uri: Option<String>,
}

/// The largest number of a port.
pub const MAX_PORT: u32 = 65535;

/// The port that a setting gives, if it is there and is a number up to
/// 65535.
pub open spec fn port_of(value: Option<String>) -> Option<u32> {
    match template_of(value) {
        Some(n) => if n <= MAX_PORT {
            Some(n)
        } else {
            None
        },
        None => None,
    }
}

/// The names of the connection settings that are missing or cannot be read,
/// in a fixed order.
pub open spec fn connection_problems(env: ConnectionEnvironment) -> Seq<Seq<char>> {
    problem(env.host is None, "HOST"@) + problem(port_of(env.port) is None, "PORT"@) + problem(
        env.mongo_uri is None,
        "MONGO_URI"@,
    ) + problem(env.mongo_db_name is None, "MONGO_DB_NAME"@) + problem(
        env.redis_uri is None,
        "REDIS_URI"@,
    )
}

/// The relational database that a setting names: none if the setting is
/// missing or empty.
pub open spec fn relational_database(value: Option<String>) -> Option<Seq<char>> {
    match value {
        Some(uri) => if uri@.len() > 0 {
            Some(uri@)
        } else {
            None
        },
        None => None,
    }
}

/// What valid connections are made of.
pub open spec fn are_connections_of(connections: Connections, env: ConnectionEnvironment) -> bool {
    &&& env.host is Some
    &&& port_of(env.port) is Some
    &&& env.mongo_uri is Some
    &&& env.mongo_db_name is Some
    &&& env.redis_uri is Some
    &&& connections.address@ == env.host.unwrap()@ + ":"@ + env.port.unwrap()@
    &&& connections.mongo_uri@ == env.mongo_uri.unwrap()@
    &&& connections.mongo_db_name@ == env.mongo_db_name.unwrap()@
    &&& connections.redis_uri@ == env.redis_uri.unwrap()@
    &&& connections.postgres_uri.deep_view() == relational_database(env.postgres_uri)
}

proof fn lemma_no_connection_problems(env: ConnectionEnvironment)
    requires
        connection_problems(env).len() == 0,
    ensures
        env.host is Some,
        port_of(env.port) is Some,
        env.mongo_uri is Some,
        env.mongo_db_name is Some,
        env.redis_uri is Some,
{
    lemma_problem_len(env.host is None, "HOST"@);
    lemma_problem_len(port_of(env.port) is None, "PORT"@);
    lemma_problem_len(env.mongo_uri is None, "MONGO_URI"@);
    lemma_problem_len(env.mongo_db_name is None, "MONGO_DB_NAME"@);
    lemma_problem_len(env.redis_uri is None, "REDIS_URI"@);
}

/// Reads where to listen and what to connect to.
///
/// Every setting is looked at before anything is decided: if one or more are
/// missing or cannot be read, the names of all of them are given back, in a
/// fixed order. The port must be a number up to 65535. The relational
/// database is left out if its setting is missing or empty.
pub fn set_connections(env: &ConnectionEnvironment) -> (r: Result<Connections, Vec<String>>)
    ensures
        match r {
            Ok(connections) => connection_problems(*env).len() == 0 && are_connections_of(
                connections,
                *env,
            ),
            Err(problems) => problems.deep_view() == connection_problems(*env) && problems@.len()
                > 0,
        },
{
    let mut problems: Vec<String> = Vec::new();
    assert(problems.deep_view() =~= Seq::<Seq<char>>::empty());
    let host = take_text(&env.host, "HOST", &mut problems);
    let port = match &env.port {
        Some(text) => match parse_u32(text.as_str()) {
            Some(n) => if n <= MAX_PORT {
                Some(text.clone())
            } else {
                None
            },
            None => None,
        },
        None => None,
    };
    note(port.is_none(), "PORT", &mut problems);
    let mongo_uri = take_text(&env.mongo_uri, "MONGO_URI", &mut problems);
    let mongo_db_name = take_text(&env.mongo_db_name, "MONGO_DB_NAME", &mut problems);
    let redis_uri = take_text(&env.redis_uri, "REDIS_URI", &mut problems);
    assert(problems.deep_view() == connection_problems(*env));
    if problems.len() > 0 {
        return Err(problems);
    }
    proof {
        lemma_no_connection_problems(*env);
    }
    let mut address = host;
    address.append(":");
    match &port {
        Some(text) => {
            address.append(text.as_str());
        },
        None => {},
    }
    let postgres_uri = match &env.postgres_uri {
        Some(uri) => if uri.as_str().unicode_len() > 0 {
            Some(uri.clone())
        } else {
            None
        },
        None => None,
    };
    Ok(Connections { address, mongo_uri, mongo_db_name, redis_uri, postgres_uri })
}

} // verus!
