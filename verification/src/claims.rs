//! The claim set of a token, the failures of issuing and verifying, and the
//! judgement that turns a decoded payload and a clock reading into claims or
//! a failure.

use crate::framing::is_framed;
use crate::outside::{
    header_reads, json_i64, json_integers, json_text, json_texts, json_u64, token_outcome,
};
use vstd::prelude::*;
use vstd::string::StringExecFns;

verus! {

/// What a token carries.
#[derive(Debug, Clone)]
pub struct Claims {
    /// The subject: the principal the token was issued for.
    pub id: i32,
    /// The Unix second from which on the token is refused.
    pub exp: u64,
    /// The token's own random identifier.
    pub jti: String,
}

/// The mathematical value of a claim set.
pub struct ClaimsView {
    pub id: int,
    pub exp: int,
    pub jti: Seq<char>,
}

impl View for Claims {
    type V = ClaimsView;

    open spec fn view(&self) -> ClaimsView {
        ClaimsView { id: self.id as int, exp: self.exp as int, jti: self.jti@ }
    }
}

/// Why issuing or verifying a token failed.
#[derive(Debug, Clone, Copy, PartialEq, Eq, Structural)]
pub enum TokenError {
    /// The system clock gave no time at or after the epoch.
    Clock,
    /// The token could not be built.
    Signing,
    /// The text is no token: wrong number of segments, or a segment that does
    /// not decode.
    MalformedToken,
    /// The signature is not the one this secret gives.
    InvalidSignature,
    /// The payload lacks a claim or holds one of the wrong type.
    MalformedClaims,
    /// The token's expiry is reached or passed.
    Expired,
    /// The entropy source gave no bytes for a token identifier.
    Entropy,
}

/// The classes of refusal of the token decoder.
#[derive(Debug, Clone, Copy, PartialEq, Eq, Structural)]
pub enum DecodeFailure {
    /// Not the frame of a token (three segments of base64url), or a first
    /// segment that is no encoded header.
    Header,
    /// The decoder found no three segments.
    Structure,
    /// A segment is not base64url.
    Encoding,
    /// A segment is not UTF-8 where text is expected.
    Text,
    /// The header names another algorithm.
    Algorithm,
    /// The signature does not match.
    Signature,
    /// The payload is not the JSON expected.
    Payload,
    /// The payload was refused for a claim it holds.
    Claim,
    /// Any other refusal.
    Other,
}

/// One claim's value as it is handed on to an embedding environment.
#[derive(Debug, Clone)]
pub enum ClaimValue {
    /// An integer that a signed 64-bit number holds.
    Int(i64),
    /// An integer above that range.
    Wide(u64),
    /// A text.
    Text(String),
}

/// The name of the subject claim.
pub open spec fn id_name() -> Seq<char> {
    "id"@
}

/// The name of the expiry claim.
pub open spec fn exp_name() -> Seq<char> {
    "exp"@
}

/// The name of the token identifier claim.
pub open spec fn jti_name() -> Seq<char> {
    "jti"@
}

/// The expiry of a token issued at `now` for `ttl` seconds: their sum, held
/// at the largest value where it would pass it.
pub open spec fn expiry(now: u64, ttl: u64) -> u64 {
    if now + ttl > u64::MAX {
        u64::MAX
    } else {
        (now + ttl) as u64
    }
}

/// The time that a count of seconds since the epoch stands for: the count
/// itself, and a clock failure where there is none.
pub open spec fn clock_time(seconds: Option<u64>) -> Result<u64, TokenError> {
    match seconds {
        Some(now) => Ok(now),
        None => Err(TokenError::Clock),
    }
}

/// A token is refused from the second of its expiry on.
pub open spec fn is_expired(exp: int, now: int) -> bool {
    now >= exp
}

/// The claims that a payload holds: a subject that fits 32 signed bits, an
/// expiry that fits 64 unsigned bits, and an identifier that is a text.
pub open spec fn payload_claims(
    integers: Map<Seq<char>, int>,
    texts: Map<Seq<char>, Seq<char>>,
) -> Option<ClaimsView> {
    if integers.contains_key(id_name()) && i32::MIN <= integers[id_name()] <= i32::MAX
        && integers.contains_key(exp_name()) && 0 <= integers[exp_name()] <= u64::MAX
        && texts.contains_key(jti_name()) {
        Some(
            ClaimsView {
                id: integers[id_name()],
                exp: integers[exp_name()],
                jti: texts[jti_name()],
            },
        )
    } else {
        None
    }
}

/// The failure that each class of refusal is reported as.
pub open spec fn failure_error(failure: DecodeFailure) -> TokenError {
    match failure {
        DecodeFailure::Header => TokenError::MalformedToken,
        DecodeFailure::Structure => TokenError::MalformedToken,
        DecodeFailure::Encoding => TokenError::MalformedToken,
        DecodeFailure::Text => TokenError::MalformedToken,
        DecodeFailure::Algorithm => TokenError::MalformedToken,
        DecodeFailure::Signature => TokenError::InvalidSignature,
        DecodeFailure::Payload => TokenError::MalformedClaims,
        DecodeFailure::Claim => TokenError::MalformedClaims,
        DecodeFailure::Other => TokenError::MalformedToken,
    }
}

/// The claims that a decoder's outcome gives before any clock is read: its
/// refusal under its kind, and a payload only where it holds the three
/// claims.
pub open spec fn claims_read(
    outcome: Result<(Map<Seq<char>, int>, Map<Seq<char>, Seq<char>>), DecodeFailure>,
) -> Result<ClaimsView, TokenError> {
    match outcome {
        Err(failure) => Err(failure_error(failure)),
        Ok((integers, texts)) => match payload_claims(integers, texts) {
            None => Err(TokenError::MalformedClaims),
            Some(claims) => Ok(claims),
        },
    }
}

/// Claims held against the clock: a clock failure where it gave no seconds,
/// expired from the second of the expiry on, and the claims before it.
pub open spec fn timed(claims: ClaimsView, seconds: Option<u64>) -> Result<
    ClaimsView,
    TokenError,
> {
    match seconds {
        None => Err(TokenError::Clock),
        Some(now) => if is_expired(claims.exp, now as int) {
            Err(TokenError::Expired)
        } else {
            Ok(claims)
        },
    }
}

/// The result of verifying at `now` a token that decoded to `outcome`.
pub open spec fn verdict(
    outcome: Result<(Map<Seq<char>, int>, Map<Seq<char>, Seq<char>>), DecodeFailure>,
    now: u64,
) -> Result<ClaimsView, TokenError> {
    match outcome {
        Err(failure) => Err(failure_error(failure)),
        Ok((integers, texts)) => match payload_claims(integers, texts) {
            None => Err(TokenError::MalformedClaims),
            Some(claims) => if is_expired(claims.exp, now as int) {
                Err(TokenError::Expired)
            } else {
                Ok(claims)
            },
        },
    }
}

/// What decoding makes of a token under a secret: a text that has not the
/// frame of a token, or whose header does not read, is refused for its
/// header; any other is left to the decoder.
pub open spec fn decoding(secret: Seq<char>, token: Seq<char>) -> Result<
    (Map<Seq<char>, int>, Map<Seq<char>, Seq<char>>),
    DecodeFailure,
> {
    if is_framed(token) && header_reads(token) {
        token_outcome(secret, token)
    } else {
        Err(DecodeFailure::Header)
    }
}

/// A decoder's outcome as the verdict reads it.
pub open spec fn outcome_view(outcome: Result<serde_json::Value, DecodeFailure>) -> Result<
    (Map<Seq<char>, int>, Map<Seq<char>, Seq<char>>),
    DecodeFailure,
> {
    match outcome {
        Ok(payload) => Ok((json_integers(payload), json_texts(payload))),
        Err(failure) => Err(failure),
    }
}

/// A result of verifying, with the claims taken by their view.
pub open spec fn result_view(result: Result<Claims, TokenError>) -> Result<
    ClaimsView,
    TokenError,
> {
    match result {
        Ok(claims) => Ok(claims@),
        Err(error) => Err(error),
    }
}

impl TokenError {
    /// The time that the clock's seconds since the epoch give, or the clock
    /// failure where it gave none.
    pub fn time_from(seconds: Option<u64>) -> (r: Result<u64, TokenError>)
        ensures
            r == clock_time(seconds),
    {
        match seconds {
            Some(now) => Ok(now),
            None => Err(TokenError::Clock),
        }
    }

    /// The failure's description.
    pub fn message(&self) -> (r: String)
        ensures
            r@ == (match *self {
                TokenError::Clock => "system clock is before the Unix epoch"@,
                TokenError::Signing => "token could not be signed"@,
                TokenError::MalformedToken => "malformed token"@,
                TokenError::InvalidSignature => "invalid signature"@,
                TokenError::MalformedClaims => "malformed claims"@,
                TokenError::Expired => "token has expired"@,
                TokenError::Entropy => "entropy source failed"@,
            }),
    {
        match self {
            TokenError::Clock => String::from_str("system clock is before the Unix epoch"),
            TokenError::Signing => String::from_str("token could not be signed"),
            TokenError::MalformedToken => String::from_str("malformed token"),
            TokenError::InvalidSignature => String::from_str("invalid signature"),
            TokenError::MalformedClaims => String::from_str("malformed claims"),
            TokenError::Expired => String::from_str("token has expired"),
            TokenError::Entropy => String::from_str("entropy source failed"),
        }
    }
}

impl DecodeFailure {
    /// The failure that this class of refusal is reported as.
    pub fn error(&self) -> (r: TokenError)
        ensures
            r == failure_error(*self),
    {
        match self {
            DecodeFailure::Header => TokenError::MalformedToken,
            DecodeFailure::Structure => TokenError::MalformedToken,
            DecodeFailure::Encoding => TokenError::MalformedToken,
            DecodeFailure::Text => TokenError::MalformedToken,
            DecodeFailure::Algorithm => TokenError::MalformedToken,
            DecodeFailure::Signature => TokenError::InvalidSignature,
            DecodeFailure::Payload => TokenError::MalformedClaims,
            DecodeFailure::Claim => TokenError::MalformedClaims,
            DecodeFailure::Other => TokenError::MalformedToken,
        }
    }
}

impl Claims {
    /// The claims of a token issued at `now` for `ttl` seconds.
    pub fn issued(id: i32, now: u64, ttl: u64, jti: String) -> (r: Claims)
        ensures
            r.id == id,
            r.exp == expiry(now, ttl),
            r.jti@ == jti@,
    {
        Claims { id, exp: now.saturating_add(ttl), jti }
    }

    /// Reads the three claims out of a decoded payload; `None` where one is
    /// missing, of the wrong type or out of its range.
    pub fn from_payload(payload: &serde_json::Value) -> (r: Option<Claims>)
        ensures
            match r {
                Some(claims) => payload_claims(json_integers(*payload), json_texts(*payload))
                    == Some(claims@),
                None => payload_claims(json_integers(*payload), json_texts(*payload)).is_none(),
            },
    {
        let id: i64 = match json_i64(payload, "id") {
            Some(n) => n,
            None => { return None; },
        };
        if id < -2147483648i64 || id > 2147483647i64 {
            return None;
        }
        let exp: u64 = match json_u64(payload, "exp") {
            Some(n) => n,
            None => { return None; },
        };
        let jti: String = match json_text(payload, "jti") {
            Some(text) => text,
            None => { return None; },
        };
        Some(Claims { id: id as i32, exp, jti })
    }

    /// Whether the token is refused at `now`: from the second of its expiry on.
    pub fn is_expired_at(&self, now: u64) -> (r: bool)
        ensures
            r == is_expired(self.exp as int, now as int),
    {
        now >= self.exp
    }

    /// Reads the claims out of what the decoder made of a token, before any
    /// clock is read: its refusal is reported under its kind, and a payload
    /// must hold the three claims.
    pub fn read(outcome: Result<serde_json::Value, DecodeFailure>) -> (r: Result<
        Claims,
        TokenError,
    >)
        ensures
            result_view(r) == claims_read(outcome_view(outcome)),
    {
        match outcome {
            Err(failure) => Err(failure.error()),
            Ok(payload) => match Claims::from_payload(&payload) {
                None => Err(TokenError::MalformedClaims),
                Some(claims) => Ok(claims),
            },
        }
    }

    /// The claims where they are still valid at `now`, and the expiry
    /// failure from the second of their expiry on.
    pub fn valid_at(self, now: u64) -> (r: Result<Claims, TokenError>)
        ensures
            result_view(r) == timed(self@, Some(now)),
    {
        if self.is_expired_at(now) {
            Err(TokenError::Expired)
        } else {
            Ok(self)
        }
    }

    /// Verifies at `now` what the decoder made of a token: its refusal is
    /// reported under its kind, a payload must hold the three claims, and the
    /// expiry must lie after `now`.
    pub fn judge(outcome: Result<serde_json::Value, DecodeFailure>, now: u64) -> (r: Result<
        Claims,
        TokenError,
    >)
        ensures
            result_view(r) == verdict(outcome_view(outcome), now),
    {
        match Claims::read(outcome) {
            Err(error) => Err(error),
            Ok(claims) => claims.valid_at(now),
        }
    }

    /// The claims as an ordered mapping from name to value: subject, expiry,
    /// identifier. An expiry above the signed range is handed on as wide.
    pub fn entries(&self) -> (r: Vec<(String, ClaimValue)>)
        ensures
            r@.len() == 3,
            r@[0].0@ == id_name(),
            r@[0].1 matches ClaimValue::Int(n) && n == self.id,
            r@[1].0@ == exp_name(),
            self.exp <= i64::MAX ==> (r@[1].1 matches ClaimValue::Int(n) && n == self.exp),
            self.exp > i64::MAX ==> (r@[1].1 matches ClaimValue::Wide(n) && n == self.exp),
            r@[2].0@ == jti_name(),
            r@[2].1 matches ClaimValue::Text(text) && text@ == self.jti@,
    {
        let exp = if self.exp <= 9223372036854775807u64 {
            ClaimValue::Int(self.exp as i64)
        } else {
            ClaimValue::Wide(self.exp)
        };
        let mut out: Vec<(String, ClaimValue)> = Vec::new();
        out.push((String::from_str("id"), ClaimValue::Int(self.id as i64)));
        out.push((String::from_str("exp"), exp));
        out.push((String::from_str("jti"), ClaimValue::Text(self.jti.clone())));
        out
    }
}

} // verus!
