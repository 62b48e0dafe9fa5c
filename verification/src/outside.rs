//! The calls into other crates and into the parts of std that have no
//! specification. Every contract in this file is taken on trust.

use crate::claims::DecodeFailure;
use crate::framing::is_framed;
use vstd::prelude::*;

verus! {

#[verifier::external_type_specification]
#[verifier::external_body]
pub struct ExJsonValue(serde_json::Value);

#[verifier::external_type_specification]
#[verifier::external_body]
pub struct ExJwtError(jsonwebtoken::errors::Error);

#[verifier::external_type_specification]
#[verifier::external_body]
pub struct ExSystemTime(std::time::SystemTime);

/// The members of a JSON object whose value is an integer, by member name.
/// Empty for a value that is no object.
pub uninterp spec fn json_integers(value: serde_json::Value) -> Map<Seq<char>, int>;

/// The members of a JSON object whose value is a string, by member name.
/// Empty for a value that is no object.
pub uninterp spec fn json_texts(value: serde_json::Value) -> Map<Seq<char>, Seq<char>>;

/// What `jsonwebtoken::encode` makes, under this secret, of a payload of two
/// integer members and one text member under these names: the token, or none
/// where it fails.
pub uninterp spec fn signing_outcome(
    secret: Seq<char>,
    id_name: Seq<char>,
    id: int,
    exp_name: Seq<char>,
    exp: int,
    jti_name: Seq<char>,
    jti: Seq<char>,
) -> Option<Seq<char>>;

/// The hyphenated lower-case text of the UUID that `uuid::Builder` makes of
/// 16 random bytes.
pub uninterp spec fn token_id_text(bytes: Seq<u8>) -> Seq<char>;

/// A character of the standard base64 alphabet.
pub open spec fn is_base64_char(c: char) -> bool {
    ('A' <= c && c <= 'Z') || ('a' <= c && c <= 'z') || ('0' <= c && c <= '9') || c == '+' || c
        == '/'
}

/// The number of `=` that close the standard base64 of `count` bytes.
pub open spec fn padding_of(count: nat) -> nat {
    if count % 3 == 1 {
        2
    } else if count % 3 == 2 {
        1
    } else {
        0
    }
}

/// The shape of the standard base64 of `count` bytes: four characters for
/// every three bytes begun, of the alphabet but for the closing `=`.
pub open spec fn is_padded_base64(text: Seq<char>, count: nat) -> bool {
    &&& text.len() == 4 * ((count + 2) / 3)
    &&& forall|i: int|
        0 <= i < text.len() ==> if i < text.len() - padding_of(count) {
            is_base64_char(#[trigger] text[i])
        } else {
            text[i] == '='
        }
}

/// What `jsonwebtoken::decode` makes of a token under a secret when it is told
/// to leave the expiry alone: the integer and string members of the payload,
/// or the class of its refusal.
pub uninterp spec fn token_outcome(secret: Seq<char>, token: Seq<char>) -> Result<
    (Map<Seq<char>, int>, Map<Seq<char>, Seq<char>>),
    DecodeFailure,
>;

/// The class of a `jsonwebtoken` error, by its `ErrorKind`.
pub uninterp spec fn error_class(error: jsonwebtoken::errors::Error) -> DecodeFailure;

/// The whole seconds from the Unix epoch to a reading of the clock; none for
/// a reading that lies before the epoch.
pub uninterp spec fn epoch_seconds(reading: std::time::SystemTime) -> Option<u64>;

/// The text that the standard base64 alphabet, with padding, gives for bytes.
pub uninterp spec fn base64_text(bytes: Seq<u8>) -> Seq<char>;

/// Whether the header segment of a token reads: `jsonwebtoken::decode_header`
/// finds three segments, the first of them base64url of a JSON header.
pub uninterp spec fn header_reads(token: Seq<char>) -> bool;

/// A digit of lower-case hexadecimal.
pub open spec fn is_lower_hex(c: char) -> bool {
    ('0' <= c && c <= '9') || ('a' <= c && c <= 'f')
}

/// The shape of a random UUID in its hyphenated lower-case form: 36
/// characters in groups of 8, 4, 4, 4 and 12 digits, the version digit 4 and
/// a variant digit from 8 to b.
pub open spec fn is_token_id(text: Seq<char>) -> bool {
    &&& text.len() == 36
    &&& forall|i: int|
        0 <= i < 36 ==> if i == 8 || i == 13 || i == 18 || i == 23 {
            #[trigger] text[i] == '-'
        } else {
            is_lower_hex(#[trigger] text[i])
        }
    &&& text[14] == '4'
    &&& (text[19] == '8' || text[19] == '9' || text[19] == 'a' || text[19] == 'b')
}

/// `SystemTime::now`: the clock's reading. Nothing is known of it.
#[verifier::external_body]
pub(crate) fn clock_reading() -> (r: std::time::SystemTime) {
    std::time::SystemTime::now()
}

/// `SystemTime::duration_since` against `UNIX_EPOCH`, in whole seconds.
/// `None` where the reading lies before the epoch. The contract names the
/// result: it is a function of the reading alone.
#[verifier::external_body]
pub(crate) fn unix_seconds(reading: &std::time::SystemTime) -> (r: Option<u64>)
    ensures
        r == epoch_seconds(*reading),
{
    match reading.duration_since(std::time::UNIX_EPOCH) {
        Ok(elapsed) => Some(elapsed.as_secs()),
        Err(_) => None,
    }
}

/// `uuid::Builder::from_random_bytes` on 16 bytes, then `into_uuid`, printed.
/// The contract names the text and claims the hyphenated lower-case form
/// with the version and variant digits that the builder sets.
#[verifier::external_body]
pub(crate) fn uuid_text(bytes: &Vec<u8>) -> (r: String)
    requires
        bytes@.len() == 16,
    ensures
        r@ == token_id_text(bytes@),
        is_token_id(r@),
{
    let mut raw = [0u8; 16];
    raw.copy_from_slice(bytes);
    uuid::Builder::from_random_bytes(raw).into_uuid().to_string()
}

/// `RngCore::try_fill_bytes` of `rand::rngs::OsRng` on `count` bytes. The
/// contract claims the length only; `None` where the entropy source fails.
#[verifier::external_body]
pub(crate) fn random_bytes(count: usize) -> (r: Option<Vec<u8>>)
    ensures
        r matches Some(bytes) ==> bytes@.len() == count,
{
    let mut buffer = vec![0u8; count];
    match rand::RngCore::try_fill_bytes(&mut rand::rngs::OsRng, &mut buffer) {
        Ok(()) => Some(buffer),
        Err(_) => None,
    }
}

/// `Engine::encode` of `base64::engine::general_purpose::STANDARD`. The
/// contract names the text and claims its shape: four characters for every
/// three bytes begun, of the standard alphabet, closed by as many `=` as the
/// last group lacks bytes.
#[verifier::external_body]
pub(crate) fn base64_standard(bytes: &[u8]) -> (r: String)
    ensures
        r@ == base64_text(bytes@),
        is_padded_base64(r@, bytes@.len()),
{
    base64::Engine::encode(&base64::engine::general_purpose::STANDARD, bytes)
}

/// `jsonwebtoken::encode` with the default header (HS256) on a payload of
/// three members under the names given, keyed by the secret's bytes. The
/// contract names the outcome, success and failure alike, and claims of a
/// token that it is three base64url segments joined by dots, none of them
/// empty; it does not claim that the call succeeds.
#[verifier::external_body]
pub(crate) fn jwt_encode(
    secret: &str,
    id_name: &str,
    id: i32,
    exp_name: &str,
    exp: u64,
    jti_name: &str,
    jti: &str,
) -> (r: Result<String, jsonwebtoken::errors::Error>)
    ensures
        match r {
            Ok(token) => signing_outcome(
                secret@,
                id_name@,
                id as int,
                exp_name@,
                exp as int,
                jti_name@,
                jti@,
            ) == Some(token@) && is_framed(token@),
            Err(_) => signing_outcome(
                secret@,
                id_name@,
                id as int,
                exp_name@,
                exp as int,
                jti_name@,
                jti@,
            ) is None,
        },
{
    let mut payload = serde_json::Map::new();
    payload.insert(id_name.to_string(), serde_json::Value::from(id));
    payload.insert(exp_name.to_string(), serde_json::Value::from(exp));
    payload.insert(jti_name.to_string(), serde_json::Value::from(jti));
    let key = jsonwebtoken::EncodingKey::from_secret(secret.as_bytes());
    jsonwebtoken::encode(&jsonwebtoken::Header::default(), &payload, &key)
}

/// `jsonwebtoken::decode_header`: whether the header of a token reads.
#[verifier::external_body]
pub(crate) fn jwt_header_reads(token: &str) -> (r: bool)
    ensures
        r == header_reads(token@),
{
    jsonwebtoken::decode_header(token).is_ok()
}

/// `jsonwebtoken::decode` with the default validation (HS256) but for the
/// expiry, which is neither demanded nor checked there, so that the call reads
/// no clock. The contract claims that the outcome is the one named for the
/// secret and the token.
#[verifier::external_body]
pub(crate) fn jwt_decode(secret: &str, token: &str) -> (r: Result<
    serde_json::Value,
    jsonwebtoken::errors::Error,
>)
    ensures
        match r {
            Ok(payload) => token_outcome(secret@, token@) == Ok::<
                (Map<Seq<char>, int>, Map<Seq<char>, Seq<char>>),
                DecodeFailure,
            >((json_integers(payload), json_texts(payload))),
            Err(error) => token_outcome(secret@, token@) == Err::<
                (Map<Seq<char>, int>, Map<Seq<char>, Seq<char>>),
                DecodeFailure,
            >(error_class(error)),
        },
{
    let mut rules = jsonwebtoken::Validation::default();
    rules.validate_exp = false;
    rules.required_spec_claims.clear();
    let key = jsonwebtoken::DecodingKey::from_secret(secret.as_bytes());
    jsonwebtoken::decode::<serde_json::Value>(token, &key, &rules).map(|data| data.claims)
}

/// `Error::kind` of `jsonwebtoken`, one class for each kind that a decode
/// under a shared secret can give, and one for all the others.
#[verifier::external_body]
pub(crate) fn classify(error: &jsonwebtoken::errors::Error) -> (r: DecodeFailure)
    ensures
        r == error_class(*error),
{
    match error.kind() {
        jsonwebtoken::errors::ErrorKind::InvalidToken => DecodeFailure::Structure,
        jsonwebtoken::errors::ErrorKind::Base64(_) => DecodeFailure::Encoding,
        jsonwebtoken::errors::ErrorKind::Utf8(_) => DecodeFailure::Text,
        jsonwebtoken::errors::ErrorKind::InvalidAlgorithm => DecodeFailure::Algorithm,
        jsonwebtoken::errors::ErrorKind::InvalidSignature => DecodeFailure::Signature,
        jsonwebtoken::errors::ErrorKind::Json(_) => DecodeFailure::Payload,
        jsonwebtoken::errors::ErrorKind::InvalidAudience => DecodeFailure::Claim,
        _ => DecodeFailure::Other,
    }
}

/// `Value::get` with a member's name, then `Value::as_i64`: the member where
/// it is an integer that an `i64` holds.
#[verifier::external_body]
pub(crate) fn json_i64(value: &serde_json::Value, name: &str) -> (r: Option<i64>)
    ensures
        match r {
            Some(n) => json_integers(*value).contains_key(name@) && json_integers(*value)[name@]
                == n,
            None => !json_integers(*value).contains_key(name@) || json_integers(*value)[name@]
                > i64::MAX,
        },
{
    match value.get(name) {
        Some(member) => member.as_i64(),
        None => None,
    }
}

/// `Value::get` with a member's name, then `Value::as_u64`: the member where
/// it is an integer that is not negative.
#[verifier::external_body]
pub(crate) fn json_u64(value: &serde_json::Value, name: &str) -> (r: Option<u64>)
    ensures
        match r {
            Some(n) => json_integers(*value).contains_key(name@) && json_integers(*value)[name@]
                == n,
            None => !json_integers(*value).contains_key(name@) || json_integers(*value)[name@]
                < 0,
        },
{
    match value.get(name) {
        Some(member) => member.as_u64(),
        None => None,
    }
}

/// `Value::get` with a member's name: the member where it is a string.
#[verifier::external_body]
pub(crate) fn json_text(value: &serde_json::Value, name: &str) -> (r: Option<String>)
    ensures
        match r {
            Some(text) => json_texts(*value).contains_key(name@) && json_texts(*value)[name@]
                == text@,
            None => !json_texts(*value).contains_key(name@),
        },
{
    match value.get(name) {
        Some(serde_json::Value::String(text)) => Some(text.clone()),
        _ => None,
    }
}

} // verus!
