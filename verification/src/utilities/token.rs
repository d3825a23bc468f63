//! The token codec: signed, time-limited session tokens.
//!
//! A token carries the issuer, the customer it was issued for, the granted
//! scopes (as the audience, joined by commas) and the second at which it
//! expires. It is signed with HMAC-SHA512 under the configured key.

use vstd::prelude::*;
use jsonwebtoken::{decode, encode, Algorithm, DecodingKey, EncodingKey, Header, Validation};
use serde_json::Value;
use crate::controllers::scopes::SessionScopes;
use crate::text::UnknownVariant;
use crate::types::response::{failure, GenericResponse, HeaderValue, HttpStatus, Reply};
use crate::utilities::api_messages::TokenMessages;

verus! {

/// The error of the `jsonwebtoken` crate. Nothing is read from it.
#[verifier::external_type_specification]
#[verifier::external_body]
pub struct ExJwtError(jsonwebtoken::errors::Error);

/// What a token states.
#[derive(Clone, Debug, PartialEq, Eq)]
pub struct Claims {
    /// Who issued the token.
    pub iss: String,
    /// The id of the customer the token was issued for.
    pub sub: String,
    /// The granted scopes, joined by commas.
    pub aud: String,
    /// The second, counted from the Unix epoch, after which the token is void.
    pub exp: usize,
}

/// The mathematical value of [`Claims`].
pub struct ClaimsView {
    pub iss: Seq<char>,
    pub sub: Seq<char>,
    pub aud: Seq<char>,
    pub exp: usize,
}

impl View for Claims {
    type V = ClaimsView;

    open spec fn view(&self) -> ClaimsView {
        ClaimsView { iss: self.iss@, sub: self.sub@, aud: self.aud@, exp: self.exp }
    }
}

/// The names of the scopes joined by commas, in order.
pub open spec fn joined_scopes(scopes: Seq<SessionScopes>) -> Seq<char>
    decreases scopes.len(),
{
    if scopes.len() == 0 {
        Seq::empty()
    } else if scopes.len() == 1 {
        scopes[0].text()
    } else {
        joined_scopes(scopes.drop_last()) + seq![','] + scopes.last().text()
    }
}

/// Whether `i` is the place of the first comma of `s`.
pub open spec fn is_first_comma(s: Seq<char>, i: int) -> bool {
    &&& 0 <= i < s.len()
    &&& s[i] == ','
    &&& forall|j: int| 0 <= j < i ==> s[j] != ','
}

/// The pieces of a text between its commas. A text without a comma is one
/// piece, the empty text too.
pub open spec fn pieces(s: Seq<char>) -> Seq<Seq<char>>
    decreases s.len(),
{
    if exists|i: int| is_first_comma(s, i) {
        let i = choose|i: int| is_first_comma(s, i);
        seq![s.subrange(0, i)] + pieces(s.subrange(i + 1, s.len() as int))
    } else {
        seq![s]
    }
}

/// The scopes that a comma-separated text names, if every piece of it is the
/// name of a scope.
pub open spec fn parsed_scopes(s: Seq<char>) -> Option<Seq<SessionScopes>> {
    let names = pieces(s);
    if forall|k: int| 0 <= k < names.len() ==> SessionScopes::parse(#[trigger] names[k]) is Some {
        Some(Seq::new(names.len(), |k: int| SessionScopes::parse(names[k]).unwrap()))
    } else {
        None
    }
}

proof fn lemma_pieces_at_comma(s: Seq<char>, i: int)
    requires
        is_first_comma(s, i),
    ensures
        pieces(s) == seq![s.subrange(0, i)] + pieces(s.subrange(i + 1, s.len() as int)),
{
    let c = choose|c: int| is_first_comma(s, c);
    assert(c == i);
}

proof fn lemma_pieces_without_comma(s: Seq<char>)
    requires
        forall|j: int| 0 <= j < s.len() ==> s[j] != ',',
    ensures
        pieces(s) == seq![s],
{
}

/// Serialises scopes for the audience of a token: their names, joined by
/// commas, in the order given.
pub fn scopes_to_string(scopes: Vec<SessionScopes>) -> (s: String)
    ensures
        s@ == joined_scopes(scopes@),
{
    let mut out = String::new();
    let mut i: usize = 0;
    while i < scopes.len()
        invariant
            i <= scopes.len(),
            out@ == joined_scopes(scopes@.subrange(0, i as int)),
        decreases scopes.len() - i,
    {
        let name = scopes[i].to_string();
        proof {
            reveal_strlit(",");
            let before = scopes@.subrange(0, i as int);
            let after = scopes@.subrange(0, i + 1);
            assert(after.drop_last() =~= before);
            assert(after.last() == scopes@[i as int]);
            assert(","@ =~= seq![',']);
            if i == 0 {
                assert(Seq::<char>::empty() + name@ =~= name@);
            }
        }
        if i > 0 {
            out.append(",");
        }
        out.append(name.as_str());
        i += 1;
    }
    assert(scopes@.subrange(0, scopes.len() as int) =~= scopes@);
    out
}

/// Reads the audience of a token back into scopes. The text is cut at its
/// commas and every piece must be the name of a scope; otherwise the whole
/// text is refused.
pub fn string_to_scopes(scopes: String) -> (r: Result<Vec<SessionScopes>, UnknownVariant>)
    ensures
        match r {
            Ok(list) => parsed_scopes(scopes@) == Some(list@),
            Err(_) => parsed_scopes(scopes@) is None,
        },
{
    let text = scopes.as_str();
    let n = text.unicode_len();
    let mut out: Vec<SessionScopes> = Vec::new();
    let ghost mut done: Seq<Seq<char>> = Seq::empty();
    let mut start: usize = 0;
    let mut i: usize = 0;
    proof {
        assert(text@.subrange(0, n as int) =~= text@);
        assert(done + pieces(text@) =~= pieces(text@));
    }
    while i < n
        invariant
            start <= i <= n,
            n == text@.len(),
            text@ == scopes@,
            forall|j: int| start <= j < i ==> text@[j] != ',',
            pieces(text@) == done + pieces(text@.subrange(start as int, n as int)),
            out@.len() == done.len(),
            forall|k: int| 0 <= k < done.len() ==> SessionScopes::parse(#[trigger] done[k]) == Some(out@[k]),
        decreases n - i,
    {
        if text.get_char(i) == ',' {
            let piece = text.substring_char(start, i);
            let ghost rest = text@.subrange(start as int, n as int);
            proof {
                assert(is_first_comma(rest, i - start));
                lemma_pieces_at_comma(rest, i - start);
                assert(rest.subrange(0, i - start) =~= piece@);
                assert(rest.subrange(i - start + 1, rest.len() as int) =~= text@.subrange(
                    i + 1,
                    n as int,
                ));
                assert(pieces(text@) =~= done.push(piece@) + pieces(
                    text@.subrange(i + 1, n as int),
                ));
            }
            match SessionScopes::from_str(piece) {
                Ok(scope) => {
                    out.push(scope);
                    proof {
                        done = done.push(piece@);
                    }
                },
                Err(_) => {
                    assert(pieces(text@)[done.len() as int] == piece@);
                    return Err(UnknownVariant);
                },
            }
            start = i + 1;
        }
        i += 1;
    }
    let piece = text.substring_char(start, n);
    proof {
        lemma_pieces_without_comma(piece@);
        assert(pieces(text@) =~= done.push(piece@));
    }
    match SessionScopes::from_str(piece) {
        Ok(scope) => {
            out.push(scope);
            proof {
                done = done.push(piece@);
                assert(pieces(text@) == done);
                assert(out@ =~= Seq::new(
                    done.len(),
                    |k: int| SessionScopes::parse(done[k]).unwrap(),
                ));
            }
            Ok(out)
        },
        Err(_) => {
            assert(pieces(text@)[done.len() as int] == piece@);
            Err(UnknownVariant)
        },
    }
}

/// The token that the `jsonwebtoken` crate makes of claims and a key with
/// HMAC-SHA512.
pub uninterp spec fn jwt_hs512_token(claims: ClaimsView, key: Seq<u8>) -> Seq<char>;

/// The claims that the `jsonwebtoken` crate reads from a token with
/// HMAC-SHA512 under a key: none if the token is malformed, is not signed
/// with that key, or lacks one of the four claims. The expiry is read, not
/// judged.
pub uninterp spec fn jwt_hs512_claims(token: Seq<char>, key: Seq<u8>) -> Option<ClaimsView>;

/// Calls `jsonwebtoken::encode` with an HS512 header, the four claims as a
/// JSON object and the key as an HMAC secret. The contract states that the
/// call succeeds: for an HMAC algorithm and a secret of any length it
/// serialises, signs and returns, and has no way to fail. It names the token
/// and states that `jsonwebtoken::decode` reads the same claims back from it
/// under the same key.
#[verifier::external_body]
fn jwt_encode_hs512(claims: &Claims, key: &[u8]) -> (r: Result<String, jsonwebtoken::errors::Error>)
    ensures
        r is Ok,
        r matches Ok(token) ==> token@ == jwt_hs512_token(claims@, key@) && jwt_hs512_claims(
            token@,
            key@,
        ) == Some(claims@),
{
    let mut body = serde_json::Map::new();
    body.insert("iss".to_string(), Value::from(claims.iss.as_str()));
    body.insert("sub".to_string(), Value::from(claims.sub.as_str()));
    body.insert("aud".to_string(), Value::from(claims.aud.as_str()));
    body.insert("exp".to_string(), Value::from(claims.exp));
    encode(&Header::new(Algorithm::HS512), &body, &EncodingKey::from_secret(key))
}

/// Calls `jsonwebtoken::decode` for HS512 with the key as an HMAC secret.
/// The signature is verified and `exp` must be present; neither the expiry
/// nor the audience is judged by the call, so that the result depends on the
/// token and the key alone. The contract names the result.
#[verifier::external_body]
fn jwt_decode_hs512(token: &str, key: &[u8]) -> (r: Option<Claims>)
    ensures
        r.deep_view() == jwt_hs512_claims(token@, key@),
{
    let mut validation = Validation::new(Algorithm::HS512);
    validation.validate_exp = false;
    validation.validate_aud = false;
    let data = decode::<Value>(token, &DecodingKey::from_secret(key), &validation).ok()?;
    Some(Claims {
        iss: data.claims.get("iss")?.as_str()?.to_string(),
        sub: data.claims.get("sub")?.as_str()?.to_string(),
        aud: data.claims.get("aud")?.as_str()?.to_string(),
        exp: usize::try_from(data.claims.get("exp")?.as_u64()?).ok()?,
    })
}

impl DeepView for Claims {
    type V = ClaimsView;

    open spec fn deep_view(&self) -> ClaimsView {
        self@
    }
}

/// What a freshly issued token states: the issuer, the customer, the scopes
/// and the expiry, `ttl` seconds after `now`.
pub open spec fn issued_claims(
    issuer: Seq<char>,
    id: Seq<char>,
    scopes: Seq<SessionScopes>,
    now: u64,
    ttl: u64,
) -> ClaimsView {
    ClaimsView { iss: issuer, sub: id, aud: joined_scopes(scopes), exp: (now + ttl) as usize }
}

/// Whether `token` is what issuing gives for these inputs: the signed form of
/// the issued claims, from which the same claims are read back under the key.
pub open spec fn is_issued_token(
    token: Seq<char>,
    issuer: Seq<char>,
    id: Seq<char>,
    scopes: Seq<SessionScopes>,
    now: u64,
    ttl: u64,
    key: Seq<u8>,
) -> bool {
    let claims = issued_claims(issuer, id, scopes, now, ttl);
    token == jwt_hs512_token(claims, key) && jwt_hs512_claims(token, key) == Some(claims)
}

/// Issues a token for a customer: signed under `signing_key`, stating the
/// issuer, the customer's id and the scopes, and expiring `ttl` seconds after
/// `now`.
///
/// Issuing succeeds whenever the expiry fits the machine's word; an expiry
/// that does not is the one error, `ErrorCreating`.
pub fn create_token(
    id: &String,
    scopes: Vec<SessionScopes>,
    issuer: &str,
    signing_key: &[u8],
    ttl: u64,
    now: u64,
) -> (r: Result<String, TokenMessages>)
    ensures
        r is Ok <==> now + ttl <= usize::MAX,
        match r {
            Ok(token) => is_issued_token(
                token@,
                issuer@,
                id@,
                scopes@,
                now,
                ttl,
                signing_key@,
            ),
            Err(e) => e == TokenMessages::ErrorCreating,
        },
{
    let exp = match now.checked_add(ttl) {
        Some(exp) => exp,
        None => {
            return Err(TokenMessages::ErrorCreating);
        },
    };
    if exp > usize::MAX as u64 {
        return Err(TokenMessages::ErrorCreating);
    }
    let claims = Claims {
        iss: issuer.to_string(),
        sub: id.clone(),
        aud: scopes_to_string(scopes),
        exp: exp as usize,
    };
    match jwt_encode_hs512(&claims, signing_key) {
        Ok(token) => Ok(token),
        Err(_) => Err(TokenMessages::ErrorCreating),
    }
}

/// What reading a token gives: its claims, if it is well formed and signed
/// with the key.
pub open spec fn token_payload(token: Seq<char>, key: Seq<u8>) -> Result<
    ClaimsView,
    TokenMessages,
> {
    match jwt_hs512_claims(token, key) {
        Some(claims) => Ok(claims),
        None => Err(TokenMessages::ErrorValidating),
    }
}

/// What verifying a token at the second `now` gives: its claims, if it is
/// well formed, signed with the key and not past its expiry.
pub open spec fn verified_claims(token: Seq<char>, key: Seq<u8>, now: u64) -> Result<
    ClaimsView,
    TokenMessages,
> {
    match jwt_hs512_claims(token, key) {
        Some(claims) => if now > claims.exp {
            Err(TokenMessages::Expired)
        } else {
            Ok(claims)
        },
        None => Err(TokenMessages::ErrorValidating),
    }
}

/// The view of a result that holds claims.
pub open spec fn claims_result_view(r: Result<Claims, TokenMessages>) -> Result<
    ClaimsView,
    TokenMessages,
> {
    match r {
        Ok(claims) => Ok(claims@),
        Err(e) => Err(e),
    }
}

/// Reads the claims of a token without judging its expiry. A token that is
/// malformed or not signed with the key gives `ErrorValidating`.
pub fn get_token_payload(token: &str, signing_key: &[u8]) -> (r: Result<Claims, TokenMessages>)
    ensures
        claims_result_view(r) == token_payload(token@, signing_key@),
{
    match jwt_decode_hs512(token, signing_key) {
        Some(claims) => Ok(claims),
        None => Err(TokenMessages::ErrorValidating),
    }
}

/// Verifies a token at the second `now`: `ErrorValidating` if it is
/// malformed or not signed with the key, `Expired` if `now` is past its
/// expiry, its claims otherwise.
pub fn validate_token(token: &str, signing_key: &[u8], now: u64) -> (r: Result<
    Claims,
    TokenMessages,
>)
    ensures
        claims_result_view(r) == verified_claims(token@, signing_key@, now),
        r matches Ok(claims) ==> now <= claims.exp,
{
    let claims = get_token_payload(token, signing_key)?;
    if now > claims.exp as u64 {
        return Err(TokenMessages::Expired);
    }
    Ok(claims)
}

/// The answer to a request whose `Authorization` header holds no token.
pub open spec fn missing_token_reply(header: HeaderValue) -> (HttpStatus, Seq<char>) {
    match header {
        HeaderValue::Unreadable => (
            HttpStatus::INTERNAL_SERVER_ERROR,
            TokenMessages::ErrorParsingToken.text(),
        ),
        _ => (HttpStatus::UNAUTHORIZED, TokenMessages::NotAuthorizationHeader.text()),
    }
}

/// Takes the token from the `Authorization` header. The header's whole text
/// is the token.
pub fn extract_token_from_headers(authorization: &HeaderValue) -> (r: Result<&str, Reply>)
    ensures
        match r {
            Ok(token) => *authorization matches HeaderValue::Text(text) && token@ == text@,
            Err(reply) => !(*authorization is Text) && reply.0 == missing_token_reply(
                *authorization,
            ).0 && reply.1@ == failure(missing_token_reply(*authorization).1),
        },
{
    match authorization {
        HeaderValue::Text(text) => Ok(text.as_str()),
        HeaderValue::Unreadable => Err(
            (
                HttpStatus::INTERNAL_SERVER_ERROR,
                GenericResponse::failure(TokenMessages::ErrorParsingToken.to_string()),
            ),
        ),
        HeaderValue::Absent => Err(
            (
                HttpStatus::UNAUTHORIZED,
                GenericResponse::failure(TokenMessages::NotAuthorizationHeader.to_string()),
            ),
        ),
    }
}

proof fn lemma_joined_from_the_left(scopes: Seq<SessionScopes>)
    requires
        scopes.len() >= 2,
    ensures
        joined_scopes(scopes) == scopes[0].text() + seq![','] + joined_scopes(
            scopes.subrange(1, scopes.len() as int),
        ),
    decreases scopes.len(),
{
    let front = scopes.drop_last();
    let back = scopes.subrange(1, scopes.len() as int);
    if scopes.len() == 2 {
        assert(front.len() == 1 && front[0] == scopes[0]);
        assert(back.len() == 1 && back[0] == scopes[1]);
        assert(joined_scopes(front) == scopes[0].text());
        assert(joined_scopes(back) == scopes[1].text());
    } else {
        lemma_joined_from_the_left(front);
        assert(front.subrange(1, front.len() as int) =~= back.drop_last());
        assert(back.last() == scopes.last());
        assert(joined_scopes(scopes) =~= scopes[0].text() + seq![','] + joined_scopes(back));
    }
}

proof fn lemma_pieces_after_first(first: Seq<char>, rest: Seq<char>)
    requires
        !first.contains(','),
    ensures
        pieces(first + seq![','] + rest) == seq![first] + pieces(rest),
{
    let all = first + seq![','] + rest;
    let at = first.len() as int;
    assert(all[at] == ',');
    assert forall|j: int| 0 <= j < at implies all[j] != ',' by {
        assert(all[j] == first[j]);
        assert(first.contains(first[j]));
    }
    assert(is_first_comma(all, at));
    lemma_pieces_at_comma(all, at);
    assert(all.subrange(0, at) =~= first);
    assert(all.subrange(at + 1, all.len() as int) =~= rest);
}

proof fn lemma_pieces_of_joined(scopes: Seq<SessionScopes>)
    requires
        scopes.len() >= 1,
    ensures
        pieces(joined_scopes(scopes)) == Seq::new(scopes.len(), |i: int| scopes[i].text()),
    decreases scopes.len(),
{
    let names = Seq::new(scopes.len(), |i: int| scopes[i].text());
    SessionScopes::lemma_text_has_no_comma(scopes[0]);
    if scopes.len() == 1 {
        let only = scopes[0].text();
        assert forall|j: int| 0 <= j < only.len() implies only[j] != ',' by {
            assert(only.contains(only[j]));
        }
        lemma_pieces_without_comma(only);
        assert(seq![only] =~= names);
    } else {
        let back = scopes.subrange(1, scopes.len() as int);
        lemma_joined_from_the_left(scopes);
        lemma_pieces_after_first(scopes[0].text(), joined_scopes(back));
        lemma_pieces_of_joined(back);
        assert(seq![scopes[0].text()] + Seq::new(back.len(), |i: int| back[i].text()) =~= names);
    }
}

/// Scopes that were written into the audience of a token are read back from
/// it as they were, in number and order. The list must not be empty: the
/// empty audience names no scope.
pub proof fn lemma_scopes_round_trip(scopes: Seq<SessionScopes>)
    requires
        scopes.len() >= 1,
    ensures
        parsed_scopes(joined_scopes(scopes)) == Some(scopes),
{
    lemma_pieces_of_joined(scopes);
    let names = pieces(joined_scopes(scopes));
    assert forall|k: int| 0 <= k < names.len() implies SessionScopes::parse(#[trigger] names[k])
        == Some(scopes[k]) by {
        SessionScopes::lemma_text_round_trip(scopes[k]);
    }
    assert(Seq::new(names.len(), |k: int| SessionScopes::parse(names[k]).unwrap()) =~= scopes);
}

/// A token whose expiry is in the past is refused, whether or not its
/// signature is good.
pub proof fn lemma_expired_token_refused(token: Seq<char>, key: Seq<u8>, now: u64)
    requires
        jwt_hs512_claims(token, key) matches Some(claims) ==> claims.exp < now,
    ensures
        verified_claims(token, key, now) is Err,
{
}

/// A token that was issued for a customer verifies under the same key at
/// every second up to its expiry, and its subject is that customer.
pub proof fn lemma_issued_token_verifies(
    token: Seq<char>,
    issuer: Seq<char>,
    id: Seq<char>,
    scopes: Seq<SessionScopes>,
    issued_at: u64,
    ttl: u64,
    key: Seq<u8>,
    now: u64,
)
    requires
        is_issued_token(token, issuer, id, scopes, issued_at, ttl, key),
        issued_at + ttl <= usize::MAX,
        now <= issued_at + ttl,
    ensures
        verified_claims(token, key, now) matches Ok(claims) && claims.sub == id && claims.aud
            == joined_scopes(scopes),
{
}

} // verus!
