//! Validation of what requests carry, and fresh random identifiers.

use vstd::prelude::*;
use rand::distributions::Alphanumeric;
use rand::{thread_rng, Rng};
use regex::Regex;
use crate::text::{byte_len, byte_length, lowercase, same_text, to_lowercase};
use crate::types::customer::CustomerType;
use crate::types::response::{
    failure,
    refusal,
    reply_view,
    GenericResponse,
    HttpStatus,
    Reply,
};
use crate::utilities::api_messages::{
    APIMessages,
    CustomerMessages,
    EmailMessages,
    InputMessages,
};

verus! {

/// The shape of an email address at sign-up and when one is added. The
/// text must begin with an address of this shape; what follows it is not
/// judged.
pub open spec fn email_pattern() -> Seq<char> {
    r"^([a-z0-9_+]([a-z0-9_+.]*[a-z0-9_+])?)@([a-z0-9]+([\-\.]{1}[a-z0-9]+)*\.[a-z]{2,6})"@
}

/// The shape of an email address at sign-in.
pub open spec fn sign_in_email_pattern() -> Seq<char> {
    r"^[a-zA-Z0-9_.+-]+@[a-zA-Z0-9-]+\.[a-zA-Z0-9-.]+$"@
}

/// The shape of a password: 8 to 20 letters, digits and underscores.
pub open spec fn password_pattern() -> Seq<char> {
    r"^[a-zA-Z0-9_]{8,20}$"@
}

/// Whether a text matches a pattern, as the `regex` crate decides it; none
/// if the crate does not accept the pattern.
pub uninterp spec fn regex_matches(pattern: Seq<char>, text: Seq<char>) -> Option<bool>;

/// Calls `Regex::new` and `Regex::is_match` of the `regex` crate. The
/// contract names the result.
#[verifier::external_body]
fn regex_is_match(pattern: &str, text: &str) -> (r: Option<bool>)
    ensures
        r == regex_matches(pattern@, text@),
{
    Some(Regex::new(pattern).ok()?.is_match(text))
}

/// Whether a text matches a pattern. A pattern that cannot be used matches
/// nothing.
pub open spec fn matches_pattern(pattern: Seq<char>, text: Seq<char>) -> bool {
    regex_matches(pattern, text) == Some(true)
}

/// Whether a text matches a pattern.
pub fn is_match(pattern: &str, text: &str) -> (r: bool)
    ensures
        r == matches_pattern(pattern@, text@),
{
    match regex_is_match(pattern, text) {
        Some(found) => found,
        None => false,
    }
}

/// Whether an email address is accepted: 5 to 100 bytes long and of the
/// shape of an address.
pub open spec fn email_accepted(email: Seq<char>) -> bool {
    5 <= byte_length(email) <= 100 && matches_pattern(email_pattern(), email)
}

/// Whether a password is accepted as to its length: 8 to 100 bytes.
pub open spec fn password_length_accepted(password: Seq<char>) -> bool {
    8 <= byte_length(password) <= 100
}

/// Whether a password is accepted: of the accepted length and shape.
pub open spec fn password_accepted(password: Seq<char>) -> bool {
    password_length_accepted(password) && matches_pattern(password_pattern(), password)
}

/// Whether a name is accepted: 2 to 25 bytes long.
pub open spec fn name_accepted(name: Seq<char>) -> bool {
    2 <= byte_length(name) <= 25
}

/// A status and a failure with the given message.
pub fn refuse(status: HttpStatus, message: APIMessages) -> (r: Reply)
    ensures
        reply_view(r) == refusal(status, message.text()),
{
    (status, GenericResponse::failure(message.to_string()))
}

/// A status and a failure with the given words.
pub fn refuse_with(status: HttpStatus, message: &str) -> (r: Reply)
    ensures
        reply_view(r) == refusal(status, message@),
{
    (status, GenericResponse::failure(message.to_string()))
}

/// A client's mistake: status 400 and a failure with the given message.
pub fn bad_request(message: APIMessages) -> (r: Reply)
    ensures
        r.0 == HttpStatus::BAD_REQUEST,
        r.1@ == failure(message.text()),
{
    (HttpStatus::BAD_REQUEST, GenericResponse::failure(message.to_string()))
}

/// The message for a body that could not be read: the parser's words after
/// a fixed prefix.
pub open spec fn invalid_payload_message(error: Seq<char>) -> Seq<char> {
    "invalid.payload: "@ + error
}

/// Passes a parsed body on, or answers for one that could not be parsed with
/// status 500 and the parser's words.
pub fn payload_analyzer<T>(payload_result: Result<T, String>) -> (r: Result<T, Reply>)
    ensures
        match r {
            Ok(payload) => payload_result == Ok::<T, String>(payload),
            Err(reply) => payload_result matches Err(error) && reply.0
                == HttpStatus::INTERNAL_SERVER_ERROR && reply.1@ == failure(
                invalid_payload_message(error@),
            ),
        },
{
    match payload_result {
        Ok(payload) => Ok(payload),
        Err(error) => {
            let mut message = "invalid.payload: ".to_string();
            message.append(error.as_str());
            Err((HttpStatus::INTERNAL_SERVER_ERROR, GenericResponse::failure(message)))
        },
    }
}

/// The message for a path that no endpoint serves.
pub open spec fn invalid_endpoint_message(path: Seq<char>) -> Seq<char> {
    "invalid.endpoint."@ + path
}

/// The answer to a request for a path that no endpoint serves.
pub fn fallback(path: &str) -> (r: Reply)
    ensures
        r.0 == HttpStatus::NOT_FOUND,
        r.1@ == failure(invalid_endpoint_message(path@)),
{
    let mut message = "invalid.endpoint.".to_string();
    message.append(path);
    (HttpStatus::NOT_FOUND, GenericResponse::failure(message))
}

/// Validates an email address, which is expected in lower case.
pub fn valid_email(email: &str) -> (r: Result<bool, Reply>)
    ensures
        match r {
            Ok(valid) => valid && email_accepted(email@),
            Err(reply) => !email_accepted(email@) && reply.0 == HttpStatus::BAD_REQUEST
                && reply.1@ == failure(EmailMessages::Invalid.text()),
        },
{
    let length = byte_len(email);
    if length < 5 || length > 100 {
        return Err(bad_request(APIMessages::Email(EmailMessages::Invalid)));
    }
    if !is_match(
        r"^([a-z0-9_+]([a-z0-9_+.]*[a-z0-9_+])?)@([a-z0-9]+([\-\.]{1}[a-z0-9]+)*\.[a-z]{2,6})",
        email,
    ) {
        return Err(bad_request(APIMessages::Email(EmailMessages::Invalid)));
    }
    Ok(true)
}

/// The message that rejects a password.
pub open spec fn password_rejection(password: Seq<char>) -> InputMessages {
    if !password_length_accepted(password) {
        InputMessages::InvalidNewPasswordLength
    } else {
        InputMessages::PasswordMustHaveAtLeastOneLetterAndOneNumber
    }
}

/// Validates a new password.
pub fn valid_password(password: &str) -> (r: Result<bool, Reply>)
    ensures
        match r {
            Ok(valid) => valid && password_accepted(password@),
            Err(reply) => !password_accepted(password@) && reply.0 == HttpStatus::BAD_REQUEST
                && reply.1@ == failure(password_rejection(password@).text()),
        },
{
    let length = byte_len(password);
    if length < 8 || length > 100 {
        return Err(bad_request(APIMessages::Input(InputMessages::InvalidNewPasswordLength)));
    }
    if !is_match(r"^[a-zA-Z0-9_]{8,20}$", password) {
        return Err(
            bad_request(
                APIMessages::Input(InputMessages::PasswordMustHaveAtLeastOneLetterAndOneNumber),
            ),
        );
    }
    Ok(true)
}

/// The kind of account that a sign-up may ask for: personal or manager,
/// in any case of letters.
pub open spec fn requested_class(raw_class: Seq<char>) -> Option<CustomerType> {
    if lowercase(raw_class) == "personal"@ {
        Some(CustomerType::PERSONAL)
    } else if lowercase(raw_class) == "manager"@ {
        Some(CustomerType::MANAGER)
    } else {
        None
    }
}

/// Reads the kind of account that a sign-up asks for. Any other name is
/// refused; nothing is assumed in its place.
pub fn parse_class(raw_class: &str) -> (r: Result<CustomerType, Reply>)
    ensures
        match r {
            Ok(class) => requested_class(raw_class@) == Some(class),
            Err(reply) => requested_class(raw_class@) is None && reply.0
                == HttpStatus::BAD_REQUEST && reply.1@ == failure(
                CustomerMessages::InvalidType.text(),
            ),
        },
{
    let folded = to_lowercase(raw_class);
    if same_text(folded.as_str(), "personal") {
        Ok(CustomerType::PERSONAL)
    } else if same_text(folded.as_str(), "manager") {
        Ok(CustomerType::MANAGER)
    } else {
        Err(bad_request(APIMessages::Customer(CustomerMessages::InvalidType)))
    }
}

/// Whether a character is an ASCII letter or digit.
pub open spec fn is_alphanumeric(c: char) -> bool {
    ('0' <= c <= '9') || ('a' <= c <= 'z') || ('A' <= c <= 'Z')
}

/// Whether a text is an identifier of the given length: that many ASCII
/// letters and digits.
pub open spec fn is_identifier(s: Seq<char>, length: usize) -> bool {
    s.len() == length && forall|i: int| 0 <= i < s.len() ==> is_alphanumeric(#[trigger] s[i])
}

/// Draws `length` characters from `rand::distributions::Alphanumeric` with
/// the thread's generator of the `rand` crate. Whatever is drawn, the result
/// has that many characters and each is an ASCII letter or digit.
#[verifier::external_body]
fn sample_alphanumeric(length: usize) -> (s: String)
    ensures
        is_identifier(s@, length),
{
    thread_rng().sample_iter(&Alphanumeric).take(length).map(char::from).collect()
}

/// A fresh random identifier of the given length.
pub fn random_string(length: usize) -> (s: String)
    ensures
        is_identifier(s@, length),
{
    sample_alphanumeric(length)
}

} // verus!
