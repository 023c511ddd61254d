//! Calls into `jsonwebtoken`, `serde_json` and `uuid` that token handling
//! rests on. Each function here makes one outside call; what the outside
//! crate computes is named, and only the facts its source shows are stated.

use vstd::prelude::*;

use crate::auth::claims::is_claims_framing;

verus! {

/// The compact token `jsonwebtoken::encode` builds with the default header
/// (HS256, `typ: JWT`) for the JSON text `payload` and the HMAC secret
/// `secret`; `None` when `serde_json` does not accept `payload` as JSON.
pub uninterp spec fn jwt_hs256_encode(payload: Seq<char>, secret: Seq<u8>) -> Option<Seq<char>>;

/// The claims JSON text that `jsonwebtoken::decode` recovers from `token`
/// when its HS256 signature verifies under `secret`, leaving the clock and
/// the registered-claim checks aside; `None` when the token is malformed,
/// its signature does not verify, or its claims part is not JSON.
pub uninterp spec fn jwt_hs256_payload(token: Seq<char>, secret: Seq<u8>) -> Option<Seq<char>>;

/// Whether `jsonwebtoken::decode` with the default validation, its expiry
/// check left out, accepts `token` under `secret`: the HS256 signature
/// verifies, the claims part is JSON, the required `exp` claim is present
/// and parses, and the audience check passes. None of this depends on the
/// clock.
pub uninterp spec fn jwt_hs256_accepted(token: Seq<char>, secret: Seq<u8>) -> bool;

/// Why `jsonwebtoken::decode` refused a token: it had expired, or any other
/// reason (with the decoder's description of it).
#[derive(Debug)]
pub enum JwtRejection {
    Expired,
    Invalid(String),
}

/// Signs `payload` into a compact HS256 token with `jsonwebtoken::encode`
/// (default header), passing the payload through unchanged as a
/// `serde_json::value::RawValue`. Claims, as the crate's source shows: the
/// call fails exactly when `serde_json` rejects the payload as JSON, and a
/// token it returns carries the payload verbatim under a signature by
/// `secret`. The library's claims framing is a JSON object (its strings
/// escaped as `serde_json` escapes them) whose `exp` is an unsigned 64-bit
/// integer and which has no `aud`, `iss` or `nbf` member; so it is accepted,
/// and the token passes every check of `jsonwebtoken::decode` but the
/// clock's (`validate`, validation.rs). The error text is not stated.
#[verifier::external_body]
pub(crate) fn jwt_encode(payload: String, secret: &[u8]) -> (res: Result<String, String>)
    requires
        payload@.len() > 0,
        payload@[0] == '{',
        payload@.last() == '}',
    ensures
        res is Ok <==> jwt_hs256_encode(payload@, secret@) is Some,
        res matches Ok(t) ==> jwt_hs256_encode(payload@, secret@) == Some(t@)
            && jwt_hs256_payload(t@, secret@) == Some(payload@),
        is_claims_framing(payload@) ==> res is Ok,
        res matches Ok(t) ==> (is_claims_framing(payload@) ==> jwt_hs256_accepted(t@, secret@)),
{
    let raw = serde_json::value::RawValue::from_string(payload).map_err(|e| e.to_string())?;
    let key = jsonwebtoken::EncodingKey::from_secret(secret);
    jsonwebtoken::encode(&jsonwebtoken::Header::default(), &raw, &key).map_err(|e| e.to_string())
}

/// What holds of every verdict `d` of [`jwt_decode`] on `token` under
/// `secret`: a returned payload is the one the signature covers and the
/// token passes every check but the clock's; an expiry verdict is only
/// given to a token whose signature verified; any other rejection is only
/// given to a token that fails a check the clock plays no part in.
pub open spec fn jwt_decode_facts(
    token: Seq<char>,
    secret: Seq<u8>,
    d: Result<String, JwtRejection>,
) -> bool {
    &&& d matches Ok(p) ==> jwt_hs256_payload(token, secret) == Some(p@) && jwt_hs256_accepted(
        token,
        secret,
    )
    &&& d matches Err(JwtRejection::Expired) ==> jwt_hs256_payload(token, secret) is Some
    &&& d matches Err(JwtRejection::Invalid(_)) ==> !jwt_hs256_accepted(token, secret)
}

/// Verifies `token` with `jsonwebtoken::decode` under the default validation
/// (HS256, `exp` required and checked against the clock with 60 s leeway)
/// and returns the claims JSON text, or the decoder's verdict. The outcome
/// depends on the clock; what holds of every outcome (as
/// [`jwt_decode_facts`] gathers it): a returned payload is the one the
/// signature covers and the token passes every check but the clock's; an
/// expiry verdict is only given to a token whose signature verified; any
/// other rejection only to a token that fails a check the clock plays no
/// part in. The rejection text is not stated.
#[verifier::external_body]
pub(crate) fn jwt_decode(token: &str, secret: &[u8]) -> (res: Result<String, JwtRejection>)
    ensures
        res matches Ok(p) ==> jwt_hs256_payload(token@, secret@) == Some(p@) && jwt_hs256_accepted(
            token@,
            secret@,
        ),
        res matches Err(JwtRejection::Expired) ==> jwt_hs256_payload(token@, secret@) is Some,
        res matches Err(JwtRejection::Invalid(_)) ==> !jwt_hs256_accepted(token@, secret@),
{
    let key = jsonwebtoken::DecodingKey::from_secret(secret);
    let validation = jsonwebtoken::Validation::default();
    match jsonwebtoken::decode::<Box<serde_json::value::RawValue>>(token, &key, &validation) {
        Ok(data) => Ok(data.claims.get().to_string()),
        Err(e) => match e.kind() {
            jsonwebtoken::errors::ErrorKind::ExpiredSignature => Err(JwtRejection::Expired),
            _ => Err(JwtRejection::Invalid(e.to_string())),
        },
    }
}

/// The current UNIX time in seconds, from `jsonwebtoken::get_current_timestamp`
/// (the system clock). Nothing is stated of the value. The outside call
/// panics when the system clock reads a time before the UNIX epoch.
#[verifier::external_body]
pub(crate) fn now_secs() -> (t: u64) {
    jsonwebtoken::get_current_timestamp()
}

/// Whether `c` is a lowercase hexadecimal digit.
pub open spec fn is_lower_hex_digit(c: char) -> bool {
    ('0' <= c <= '9') || ('a' <= c <= 'f')
}

/// The lowercase hyphenated text of a version 4 UUID: 36 characters in
/// groups of 8-4-4-4-12 lowercase hex digits, the version digit `4` first
/// in the third group and a variant digit from `8`, `9`, `a`, `b` first in
/// the fourth.
pub open spec fn uuid_v4_text(s: Seq<char>) -> bool {
    &&& s.len() == 36
    &&& forall|i: int|
        0 <= i < 36 ==> if i == 8 || i == 13 || i == 18 || i == 23 {
            s[i] == '-'
        } else {
            is_lower_hex_digit(#[trigger] s[i])
        }
    &&& s[14] == '4'
    &&& s[19] == '8' || s[19] == '9' || s[19] == 'a' || s[19] == 'b'
}

/// A fresh random (version 4) UUID in its hyphenated text form, from
/// `uuid::Uuid::new_v4` and its `Display`. What holds of every outcome: the
/// text form of a version 4 UUID; the random digits are not stated.
#[verifier::external_body]
pub(crate) fn new_uuid_v4() -> (s: String)
    ensures
        uuid_v4_text(s@),
{
    uuid::Uuid::new_v4().to_string()
}

} // verus!
