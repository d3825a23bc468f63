//! Signature verification for the billing webhooks.
//!
//! An event is trusted only if the `X-Signature` header holds the HMAC-SHA256
//! of the request body, keyed with the shared secret and written as lower-case
//! hex. The body is the bytes as they were received, never a re-encoding.

use vstd::prelude::*;
use hmac::{Hmac, Mac};
use sha2::Sha256;
use crate::lemonsqueezy::subscription::{
    classify_event,
    created_outcome,
    event_kind,
    found_outcome,
    changed_update,
    history_update,
    status_update,
    subscription_created,
    subscription_update_history_logs,
    subscription_update_status,
    subscription_updated,
    EventKind,
    SUBSCRIPTION_ID_LENGTH,
};
use crate::storage::{
    build_customer_filter,
    CustomerFilter,
    StorageError,
    SubscriptionUpdate,
    SubscriptionUpdateView,
};
use crate::text::{byte_len, byte_length};
use crate::types::customer::Customer;
use crate::types::lemonsqueezy::{Products, SubscriptionEvent};
use crate::types::response::{
    failure,
    success,
    GenericResponse,
    GenericResponseView,
    HeaderValue,
    HttpStatus,
    Reply,
};
use crate::utilities::helpers::{invalid_payload_message, is_identifier};

verus! {

/// The number of hex digits of a 256-bit MAC.
pub const SIGNATURE_LENGTH: usize = 64;

/// The HMAC-SHA256 of a message under a key.
pub uninterp spec fn hmac_sha256(key: Seq<u8>, message: Seq<u8>) -> Seq<u8>;

/// The lower-case hex digit of a number below 16.
pub open spec fn hex_digit(nibble: int) -> char {
    "0123456789abcdef"@[nibble]
}

/// Bytes written as lower-case hex, two digits each, high digit first.
pub open spec fn hex_text(bytes: Seq<u8>) -> Seq<char> {
    Seq::new(
        2 * bytes.len(),
        |i: int|
            if i % 2 == 0 {
                hex_digit(bytes[i / 2] as int / 16)
            } else {
                hex_digit(bytes[i / 2] as int % 16)
            },
    )
}

/// The signature that authenticates a body under a key.
pub open spec fn expected_signature(key: Seq<u8>, body: Seq<u8>) -> Seq<char> {
    hex_text(hmac_sha256(key, body))
}

/// Whether a signature header authenticates a body under a key: it is a
/// text of 64 characters, and they are the expected signature.
pub open spec fn signature_accepted(signature: HeaderValue, body: Seq<u8>, key: Seq<u8>) -> bool {
    signature matches HeaderValue::Text(text) && text@.len() == SIGNATURE_LENGTH && text@
        == expected_signature(key, body)
}

/// The message that signature verification answers with.
pub open spec fn signature_message(signature: HeaderValue, body: Seq<u8>, key: Seq<u8>) -> Seq<
    char,
> {
    match signature {
        HeaderValue::Absent => "missing signature"@,
        HeaderValue::Unreadable => "invalid signature"@,
        HeaderValue::Text(text) => if text@.len() != SIGNATURE_LENGTH {
            "invalid signature length"@
        } else if text@ != expected_signature(key, body) {
            "invalid signature"@
        } else {
            ""@
        },
    }
}

/// Computes the MAC with the `hmac` and `sha2` crates: `Hmac::<Sha256>`,
/// `new_from_slice`, `update`, `finalize`. The contract names the result and
/// states its length, 32 bytes. `new_from_slice` takes a key of any length,
/// so the call always yields a MAC.
#[verifier::external_body]
fn compute_hmac_sha256(key: &[u8], message: &[u8]) -> (mac: Vec<u8>)
    ensures
        mac@ == hmac_sha256(key@, message@),
        mac@.len() == 32,
{
    let mut mac = Hmac::<Sha256>::new_from_slice(key).expect("HMAC takes a key of any length");
    mac.update(message);
    mac.finalize().into_bytes().to_vec()
}

/// The lower-case hex digit of a number below 16, as a text of one
/// character.
fn hex_digit_text(nibble: u8) -> (digit: &'static str)
    requires
        nibble < 16,
    ensures
        digit@ == seq![hex_digit(nibble as int)],
{
    let table: &'static str = "0123456789abcdef";
    proof {
        reveal_strlit("0123456789abcdef");
    }
    let from = nibble as usize;
    let digit = table.substring_char(from, from + 1);
    assert(digit@ =~= seq![hex_digit(nibble as int)]);
    digit
}

/// Writes bytes as lower-case hex, two digits each, the high one first.
fn hex_encode(bytes: &[u8]) -> (text: String)
    ensures
        text@ == hex_text(bytes@),
{
    let mut text = String::new();
    let mut i: usize = 0;
    assert(text@ =~= hex_text(bytes@.subrange(0, 0)));
    while i < bytes.len()
        invariant
            i <= bytes.len(),
            text@ == hex_text(bytes@.subrange(0, i as int)),
        decreases bytes.len() - i,
    {
        let byte = bytes[i];
        let ghost before = text@;
        text.append(hex_digit_text(byte / 16));
        text.append(hex_digit_text(byte % 16));
        proof {
            let done = bytes@.subrange(0, i as int);
            let more = bytes@.subrange(0, i + 1);
            assert(more[i as int] == byte);
            assert forall|k: int| 0 <= k < 2 * i implies hex_text(more)[k] == hex_text(done)[k] by {
                assert(more[k / 2] == done[k / 2]);
            }
            assert(text@ =~= hex_text(more));
        }
        i += 1;
    }
    assert(bytes@.subrange(0, bytes.len() as int) =~= bytes@);
    text
}

/// Checks the signature header of a webhook against the body as received.
///
/// The flag is true exactly when the header is a text of 64 characters and
/// equals the expected signature; the envelope says why not otherwise. The
/// expected signature itself always has 64 characters.
pub fn signature_verification(signature: &HeaderValue, body: &[u8], signature_key: &[u8]) -> (r: (
    bool,
    GenericResponse,
))
    ensures
        r.0 == signature_accepted(*signature, body@, signature_key@),
        r.0 ==> r.1@ == success(""@),
        !r.0 ==> r.1@ == failure(
            signature_message(*signature, body@, signature_key@),
        ),
        expected_signature(signature_key@, body@).len() == SIGNATURE_LENGTH,
{
    let mac = compute_hmac_sha256(signature_key, body);
    let text = match signature {
        HeaderValue::Absent => {
            return (false, GenericResponse::failure("missing signature".to_string()));
        },
        HeaderValue::Unreadable => {
            return (false, GenericResponse::failure("invalid signature".to_string()));
        },
        HeaderValue::Text(text) => text,
    };
    if text.as_str().unicode_len() != SIGNATURE_LENGTH {
        return (false, GenericResponse::failure("invalid signature length".to_string()));
    }
    let expected = hex_encode(mac.as_slice());
    if *text != expected {
        return (false, GenericResponse::failure("invalid signature".to_string()));
    }
    (true, GenericResponse::success("".to_string()))
}

/// The answer to a webhook that was taken in, whether or not it changed
/// anything.
pub fn captured() -> (r: Reply)
    ensures
        r.0 == HttpStatus::OK,
        r.1@ == success("captured"@),
{
    (HttpStatus::OK, GenericResponse::success("captured".to_string()))
}

/// The answer to a webhook whose body could not be parsed: status 400, so
/// that the sender's own policy decides on a new delivery.
fn unreadable_payload(error: &String) -> (r: Reply)
    ensures
        r.0 == HttpStatus::BAD_REQUEST,
        r.1@ == failure(invalid_payload_message(error@)),
{
    let mut message = "invalid.payload: ".to_string();
    message.append(error.as_str());
    (HttpStatus::BAD_REQUEST, GenericResponse::failure(message))
}

/// What the listener for order events answers.
pub open spec fn order_reply(
    signature: HeaderValue,
    body: Seq<u8>,
    key: Seq<u8>,
    payload_error: Option<Seq<char>>,
) -> (HttpStatus, GenericResponseView) {
    if !signature_accepted(signature, body, key) {
        (HttpStatus::BAD_REQUEST, failure(signature_message(signature, body, key)))
    } else if payload_error is Some {
        (HttpStatus::BAD_REQUEST, failure(invalid_payload_message(payload_error.unwrap())))
    } else {
        (HttpStatus::OK, success("captured"@))
    }
}

/// Listens to order events: they are authenticated, acknowledged and not
/// processed further.
///
/// `payload_error` holds the parser's words if the body is no order event.
pub fn orders_webhook_events_listener(
    signature: &HeaderValue,
    body: &[u8],
    signature_key: &[u8],
    payload_error: &Option<String>,
) -> (r: Reply)
    ensures
        r.0 == order_reply(*signature, body@, signature_key@, payload_error.deep_view()).0,
        r.1@ == order_reply(*signature, body@, signature_key@, payload_error.deep_view()).1,
{
    let (verified, error_response) = signature_verification(signature, body, signature_key);
    if !verified {
        return (HttpStatus::BAD_REQUEST, error_response);
    }
    match payload_error {
        Some(error) => unreadable_payload(error),
        None => captured(),
    }
}

/// What the listener for subscription events decides before any customer
/// is looked up.
#[derive(Debug, PartialEq, Eq)]
pub enum WebhookRoute {
    /// The event is refused; nothing is looked up or written.
    Reject(Reply),
    /// The event is taken in and ignored; nothing is looked up or written.
    Acknowledge(Reply),
    /// The event is to be reconciled with the customer that the filter
    /// finds.
    Reconcile(EventKind, CustomerFilter),
}

/// The view of what the listener decides.
pub enum WebhookRouteView {
    Reject(HttpStatus, GenericResponseView),
    Acknowledge(HttpStatus, GenericResponseView),
    Reconcile(EventKind, Seq<char>, Seq<char>),
}

impl View for WebhookRoute {
    type V = WebhookRouteView;

    open spec fn view(&self) -> WebhookRouteView {
        match self {
            WebhookRoute::Reject(reply) => WebhookRouteView::Reject(reply.0, reply.1@),
            WebhookRoute::Acknowledge(reply) => WebhookRouteView::Acknowledge(reply.0, reply.1@),
            WebhookRoute::Reconcile(kind, filter) => WebhookRouteView::Reconcile(
                *kind,
                filter.id@,
                filter.email@,
            ),
        }
    }
}

/// The decision on a subscription event whose signature was accepted.
///
/// The event's name decides first: an event that is not reconciled is
/// acknowledged, whatever else it holds. An event that is reconciled must
/// name its customer with an id of 1 to 100 bytes.
pub open spec fn event_route(event: SubscriptionEvent) -> WebhookRouteView {
    if event_kind(event.meta.event_name@) == EventKind::Ignored {
        WebhookRouteView::Acknowledge(HttpStatus::OK, success("captured"@))
    } else {
        match event.meta.custom_data {
            None => WebhookRouteView::Reject(HttpStatus::BAD_REQUEST, failure("not custom_data"@)),
            Some(custom_data) => if byte_length(custom_data.customer_id@) > 100 || byte_length(
                custom_data.customer_id@,
            ) < 1 {
                WebhookRouteView::Reject(HttpStatus::BAD_REQUEST, failure("missing customer_id"@))
            } else {
                WebhookRouteView::Reconcile(
                    event_kind(event.meta.event_name@),
                    custom_data.customer_id@,
                    event.data.attributes.user_email@,
                )
            },
        }
    }
}

/// The decision on a subscription webhook.
pub open spec fn subscription_route(
    signature: HeaderValue,
    body: Seq<u8>,
    key: Seq<u8>,
    payload: Result<SubscriptionEvent, String>,
) -> WebhookRouteView {
    if !signature_accepted(signature, body, key) {
        WebhookRouteView::Reject(
            HttpStatus::BAD_REQUEST,
            failure(signature_message(signature, body, key)),
        )
    } else {
        match payload {
            Err(error) => WebhookRouteView::Reject(
                HttpStatus::BAD_REQUEST,
                failure(invalid_payload_message(error@)),
            ),
            Ok(event) => event_route(event),
        }
    }
}

/// Listens to subscription events.
///
/// An event is refused with status 400 unless its signature authenticates
/// the body as received and the body is a subscription event. An event of a
/// kind that is not reconciled is then acknowledged with status 200 and
/// changes nothing, whatever else it holds. Any other event must name its
/// customer, or it is refused with status 400; it is to be reconciled with
/// the customer of the given id or, failing that, of the email address the
/// billing provider knows.
pub fn subscription_webhook_events_listener(
    signature: &HeaderValue,
    body: &[u8],
    signature_key: &[u8],
    payload: &Result<SubscriptionEvent, String>,
) -> (route: WebhookRoute)
    ensures
        route@ == subscription_route(*signature, body@, signature_key@, *payload),
{
    let (verified, error_response) = signature_verification(signature, body, signature_key);
    if !verified {
        return WebhookRoute::Reject((HttpStatus::BAD_REQUEST, error_response));
    }
    let event = match payload {
        Ok(event) => event,
        Err(error) => {
            return WebhookRoute::Reject(unreadable_payload(error));
        },
    };
    let kind = classify_event(event.meta.event_name.as_str());
    if kind == EventKind::Ignored {
        return WebhookRoute::Acknowledge(captured());
    }
    let custom_data = match &event.meta.custom_data {
        Some(custom_data) => custom_data,
        None => {
            return WebhookRoute::Reject(
                (HttpStatus::BAD_REQUEST, GenericResponse::failure("not custom_data".to_string())),
            );
        },
    };
    let length = byte_len(custom_data.customer_id.as_str());
    if length > 100 || length < 1 {
        return WebhookRoute::Reject(
            (HttpStatus::BAD_REQUEST, GenericResponse::failure("missing customer_id".to_string())),
        );
    }
    WebhookRoute::Reconcile(
        kind,
        build_customer_filter(
            custom_data.customer_id.as_str(),
            event.data.attributes.user_email.as_str(),
        ),
    )
}

/// What reconciling an event of a kind writes, for a given fresh id.
pub open spec fn reconciled(
    kind: EventKind,
    event: SubscriptionEvent,
    lookup: Result<Option<Customer>, StorageError>,
    products: Products,
    id: Seq<char>,
) -> Result<SubscriptionUpdateView, GenericResponseView> {
    match kind {
        EventKind::Created => created_outcome(event, lookup, products, id),
        EventKind::Updated => found_outcome(lookup, changed_update(event)),
        EventKind::StatusChange => found_outcome(lookup, status_update(event)),
        EventKind::HistoryOnly => found_outcome(lookup, history_update(event)),
        EventKind::Ignored => Err(success("captured"@)),
    }
}

/// Reconciles an event with what the lookup of its customer gave: the write
/// to perform, or the refusal to answer with status 400. An ignored event
/// writes nothing and is answered with status 200. The write of a creation
/// carries a fresh id of 15 letters and digits.
pub fn reconcile(
    kind: EventKind,
    event: &SubscriptionEvent,
    lookup: &Result<Option<Customer>, StorageError>,
    products: &Products,
) -> (r: Result<SubscriptionUpdate, Reply>)
    ensures
        match r {
            Ok(update) => {
                &&& kind != EventKind::Ignored
                &&& exists|id: Seq<char>|
                    #[trigger] reconciled(kind, *event, *lookup, *products, id) == Ok::<
                        SubscriptionUpdateView,
                        GenericResponseView,
                    >(update@)
                &&& kind == EventKind::Created ==> (update.terms matches Some(terms)
                    && is_identifier(terms.id@, SUBSCRIPTION_ID_LENGTH))
            },
            Err(reply) => reply.0 == (if kind == EventKind::Ignored {
                HttpStatus::OK
            } else {
                HttpStatus::BAD_REQUEST
            }) && forall|id: Seq<char>|
                #[trigger] reconciled(kind, *event, *lookup, *products, id) == Err::<
                    SubscriptionUpdateView,
                    GenericResponseView,
                >(reply.1@),
        },
{
    let outcome = match kind {
        EventKind::Created => {
            let outcome = subscription_created(event, lookup, products);
            proof {
                if let Ok(update) = &outcome {
                    let id = update.terms.unwrap().id@;
                    assert(reconciled(kind, *event, *lookup, *products, id) == Ok::<
                        SubscriptionUpdateView,
                        GenericResponseView,
                    >(update@));
                }
            }
            outcome
        },
        EventKind::Updated => {
            let outcome = subscription_updated(event, lookup);
            proof {
                if let Ok(update) = &outcome {
                    assert(reconciled(kind, *event, *lookup, *products, Seq::empty()) == Ok::<
                        SubscriptionUpdateView,
                        GenericResponseView,
                    >(update@));
                }
            }
            outcome
        },
        EventKind::StatusChange => {
            let outcome = subscription_update_status(event, lookup);
            proof {
                if let Ok(update) = &outcome {
                    assert(reconciled(kind, *event, *lookup, *products, Seq::empty()) == Ok::<
                        SubscriptionUpdateView,
                        GenericResponseView,
                    >(update@));
                }
            }
            outcome
        },
        EventKind::HistoryOnly => {
            let outcome = subscription_update_history_logs(event, lookup);
            proof {
                if let Ok(update) = &outcome {
                    assert(reconciled(kind, *event, *lookup, *products, Seq::empty()) == Ok::<
                        SubscriptionUpdateView,
                        GenericResponseView,
                    >(update@));
                }
            }
            outcome
        },
        EventKind::Ignored => {
            return Err(captured());
        },
    };
    match outcome {
        Ok(update) => Ok(update),
        Err(response) => Err((HttpStatus::BAD_REQUEST, response)),
    }
}

/// The answer once the write of a reconciled event was attempted: status 200
/// if it was performed, status 400 if the repository failed.
pub fn webhook_write_reply(written: &Result<(), StorageError>) -> (r: Reply)
    ensures
        written is Ok ==> r.0 == HttpStatus::OK && r.1@ == success("captured"@),
        written is Err ==> r.0 == HttpStatus::BAD_REQUEST && r.1@ == failure(
            "error updating customer subscription"@,
        ),
{
    match written {
        Ok(_) => captured(),
        Err(_) => (
            HttpStatus::BAD_REQUEST,
            GenericResponse::failure("error updating customer subscription".to_string()),
        ),
    }
}

/// An authentic event whose name is none of the reconciled ones is answered
/// with status 200 and leads to no lookup and no write, whatever else it
/// holds.
pub proof fn lemma_unknown_event_acknowledged(event: SubscriptionEvent)
    requires
        event_kind(event.meta.event_name@) == EventKind::Ignored,
    ensures
        event_route(event) == WebhookRouteView::Acknowledge(HttpStatus::OK, success("captured"@)),
{
}

/// Distinct numbers below 16 have distinct hex digits.
pub proof fn lemma_hex_digit_injective(a: int, b: int)
    requires
        0 <= a < 16,
        0 <= b < 16,
        hex_digit(a) == hex_digit(b),
    ensures
        a == b,
{
    reveal_strlit("0123456789abcdef");
}

/// Distinct byte strings have distinct hex forms.
pub proof fn lemma_hex_text_injective(a: Seq<u8>, b: Seq<u8>)
    requires
        hex_text(a) == hex_text(b),
    ensures
        a == b,
{
    assert(hex_text(a).len() == 2 * a.len());
    assert(hex_text(b).len() == 2 * b.len());
    assert(a.len() == b.len());
    assert forall|i: int| 0 <= i < a.len() implies a[i] == b[i] by {
        let high_a = a[i] as int / 16;
        let high_b = b[i] as int / 16;
        let low_a = a[i] as int % 16;
        let low_b = b[i] as int % 16;
        assert(hex_text(a)[2 * i] == hex_digit(high_a));
        assert(hex_text(b)[2 * i] == hex_digit(high_b));
        assert(hex_text(a)[2 * i + 1] == hex_digit(low_a));
        assert(hex_text(b)[2 * i + 1] == hex_digit(low_b));
        lemma_hex_digit_injective(high_a, high_b);
        lemma_hex_digit_injective(low_a, low_b);
    }
    assert(a =~= b);
}

/// The signature computed over the exact body, the 64 hex digits of its MAC,
/// is accepted.
pub proof fn lemma_correct_signature_accepted(signature: String, body: Seq<u8>, key: Seq<u8>)
    requires
        signature@ == expected_signature(key, body),
        signature@.len() == SIGNATURE_LENGTH,
    ensures
        signature_accepted(HeaderValue::Text(signature), body, key),
{
}

/// A text of a length other than 64 is rejected as a signature, whatever
/// the body and the key.
pub proof fn lemma_wrong_length_rejected(signature: String, body: Seq<u8>, key: Seq<u8>)
    requires
        signature@.len() != SIGNATURE_LENGTH,
    ensures
        !signature_accepted(HeaderValue::Text(signature), body, key),
        signature_message(HeaderValue::Text(signature), body, key) == "invalid signature length"@,
{
}

/// A signature that was changed in any way is rejected: for one body and
/// key, at most one signature text is accepted.
pub proof fn lemma_altered_signature_rejected(
    signature: String,
    altered: String,
    body: Seq<u8>,
    key: Seq<u8>,
)
    requires
        signature_accepted(HeaderValue::Text(signature), body, key),
        altered@ != signature@,
    ensures
        !signature_accepted(HeaderValue::Text(altered), body, key),
{
}

/// After a change of the body the old signature is rejected, unless the two
/// bodies have the same MAC under the key.
pub proof fn lemma_altered_body_rejected(
    signature: HeaderValue,
    body: Seq<u8>,
    altered: Seq<u8>,
    key: Seq<u8>,
)
    requires
        signature_accepted(signature, body, key),
        hmac_sha256(key, altered) != hmac_sha256(key, body),
    ensures
        !signature_accepted(signature, altered, key),
{
    if signature_accepted(signature, altered, key) {
        lemma_hex_text_injective(hmac_sha256(key, altered), hmac_sha256(key, body));
    }
}

} // verus!
