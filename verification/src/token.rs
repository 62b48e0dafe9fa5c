//! The issuer: one secret, tokens issued under it and verified against it.

use crate::claims::{
    claims_read, clock_time, decoding, exp_name, expiry, failure_error, id_name, jti_name,
    outcome_view, payload_claims, result_view, timed, verdict, Claims, DecodeFailure, TokenError,
};
use crate::framing::{is_framed, well_framed};
use crate::outside::{
    classify, clock_reading, epoch_seconds, is_token_id, jwt_decode, jwt_encode,
    jwt_header_reads, random_bytes, signing_outcome, token_id_text, unix_seconds, uuid_text,
};
use vstd::prelude::*;

verus! {

/// Issues and verifies tokens under one shared secret, which may be of any
/// length: a short or empty secret weakens every signature made with it, and
/// choosing it well is left to the caller.
pub struct RustToken {
    secret: String,
}

/// The current Unix time: the whole seconds from the epoch to a reading of
/// the clock, and `Err(Clock)` where that reading lies before the epoch.
pub fn unix_now() -> (r: Result<u64, TokenError>)
    ensures
        exists|reading: std::time::SystemTime| r == clock_time(#[trigger] epoch_seconds(reading)),
{
    let reading = clock_reading();
    TokenError::time_from(unix_seconds(&reading))
}

/// The number of random bytes in a token identifier.
pub const ID_BYTES: usize = 16;

/// A result of issuing, with the token taken by its view.
pub open spec fn token_view(result: Result<String, TokenError>) -> Result<Seq<char>, TokenError> {
    match result {
        Ok(token) => Ok(token@),
        Err(error) => Err(error),
    }
}

/// What an outcome of the signer is reported as: its token, or the signing
/// failure where it gave none.
pub open spec fn signing_result(outcome: Option<Seq<char>>) -> Result<Seq<char>, TokenError> {
    match outcome {
        Some(token) => Ok(token),
        None => Err(TokenError::Signing),
    }
}

/// What the signer makes of the three claims under their names.
pub open spec fn signed_claims(secret: Seq<char>, id: int, exp: int, jti: Seq<char>) -> Option<
    Seq<char>,
> {
    signing_outcome(secret, id_name(), id, exp_name(), exp, jti_name(), jti)
}

/// Whether the identifier that an entropy source's 16 bytes give has the
/// shape of a random UUID.
pub open spec fn identifier_shaped(entropy: Option<Seq<u8>>) -> bool {
    match entropy {
        Some(bytes) => bytes.len() == ID_BYTES ==> is_token_id(token_id_text(bytes)),
        None => true,
    }
}

/// The result of issuing at `now` a token for `user_id` that lives `ttl_time`
/// seconds and carries the identifier `jti`.
pub open spec fn issued_at(
    secret: Seq<char>,
    user_id: i32,
    ttl_time: u64,
    now: u64,
    jti: Seq<char>,
) -> Result<Seq<char>, TokenError> {
    signing_result(signed_claims(secret, user_id as int, expiry(now, ttl_time) as int, jti))
}

/// The result of issuing from what the clock and the entropy source gave: a
/// clock failure without seconds, then an entropy failure without 16 bytes,
/// then the token issued at these seconds with the identifier of these
/// bytes.
pub open spec fn issued_from(
    secret: Seq<char>,
    user_id: i32,
    ttl_time: u64,
    seconds: Option<u64>,
    entropy: Option<Seq<u8>>,
) -> Result<Seq<char>, TokenError> {
    match seconds {
        None => Err(TokenError::Clock),
        Some(now) => match entropy {
            None => Err(TokenError::Entropy),
            Some(bytes) => if bytes.len() == ID_BYTES {
                issued_at(secret, user_id, ttl_time, now, token_id_text(bytes))
            } else {
                Err(TokenError::Entropy)
            },
        },
    }
}

/// What an entropy source gave, with the bytes taken by their view.
pub open spec fn entropy_view(entropy: Option<Vec<u8>>) -> Option<Seq<u8>> {
    match entropy {
        Some(bytes) => Some(bytes@),
        None => None,
    }
}

/// The token identifier that 16 random bytes give: a random UUID in its
/// hyphenated form. Without 16 bytes there is none, which is an entropy
/// failure.
pub fn token_id(entropy: Option<Vec<u8>>) -> (r: Result<String, TokenError>)
    ensures
        match entropy_view(entropy) {
            Some(bytes) => if bytes.len() == ID_BYTES {
                r is Ok && r->Ok_0@ == token_id_text(bytes) && is_token_id(r->Ok_0@)
            } else {
                r == Err::<String, TokenError>(TokenError::Entropy)
            },
            None => r == Err::<String, TokenError>(TokenError::Entropy),
        },
{
    match entropy {
        Some(bytes) => if bytes.len() == ID_BYTES {
            Ok(uuid_text(&bytes))
        } else {
            Err(TokenError::Entropy)
        },
        None => Err(TokenError::Entropy),
    }
}

impl RustToken {
    /// The secret that the issuer holds.
    pub closed spec fn secret(&self) -> Seq<char> {
        self.secret@
    }

    /// An issuer that holds `secret`.
    pub fn new(secret: String) -> (r: Self)
        ensures
            r.secret() == secret@,
    {
        RustToken { secret }
    }

    /// The token for `claims` under the held secret: what the signer makes
    /// of the secret and of the claims under the names `id`, `exp` and `jti`,
    /// and the signing failure where it makes none. A token has the frame
    /// that verifying asks for.
    pub fn sign(&self, claims: &Claims) -> (r: Result<String, TokenError>)
        ensures
            token_view(r) == signing_result(
                signing_outcome(
                    self.secret(),
                    id_name(),
                    claims.id as int,
                    exp_name(),
                    claims.exp as int,
                    jti_name(),
                    claims.jti@,
                ),
            ),
            r matches Ok(token) ==> is_framed(token@),
    {
        match jwt_encode(
            self.secret.as_str(),
            "id",
            claims.id,
            "exp",
            claims.exp,
            "jti",
            claims.jti.as_str(),
        ) {
            Ok(token) => Ok(token),
            Err(_) => Err(TokenError::Signing),
        }
    }

    /// Issues at `now` a token for `user_id` that lives `ttl_time` seconds and
    /// carries the identifier `jti`.
    pub fn create_token_at(&self, user_id: i32, ttl_time: u64, now: u64, jti: String) -> (r:
        Result<String, TokenError>)
        ensures
            token_view(r) == issued_at(self.secret(), user_id, ttl_time, now, jti@),
            r matches Ok(token) ==> is_framed(token@),
    {
        let claims = Claims::issued(user_id, now, ttl_time, jti);
        self.sign(&claims)
    }

    /// Issues a token from what the clock and the entropy source gave. The
    /// identifier that 16 bytes give has the shape of a random UUID.
    pub fn create_token_from(
        &self,
        user_id: i32,
        ttl_time: u64,
        seconds: Option<u64>,
        entropy: Option<Vec<u8>>,
    ) -> (r: Result<String, TokenError>)
        ensures
            token_view(r) == issued_from(
                self.secret(),
                user_id,
                ttl_time,
                seconds,
                entropy_view(entropy),
            ),
            identifier_shaped(entropy_view(entropy)),
            r matches Ok(token) ==> is_framed(token@),
    {
        let identifier = token_id(entropy);
        let now: u64 = match TokenError::time_from(seconds) {
            Ok(now) => now,
            Err(error) => { return Err(error); },
        };
        let jti: String = match identifier {
            Ok(jti) => jti,
            Err(error) => { return Err(error); },
        };
        self.create_token_at(user_id, ttl_time, now, jti)
    }

    /// Issues a token for `user_id` that lives `ttl_time` seconds from now,
    /// with a fresh random identifier: the clock is read, then 16 bytes are
    /// drawn, then the token is signed.
    pub fn create_token(&self, user_id: i32, ttl_time: u64) -> (r: Result<String, TokenError>)
        ensures
            exists|reading: std::time::SystemTime, entropy: Option<Seq<u8>>|
                token_view(r) == #[trigger] issued_from(
                    self.secret(),
                    user_id,
                    ttl_time,
                    epoch_seconds(reading),
                    entropy,
                ) && identifier_shaped(entropy),
            r matches Ok(token) ==> is_framed(token@),
    {
        let reading = clock_reading();
        let seconds = unix_seconds(&reading);
        let entropy = if seconds.is_some() {
            random_bytes(ID_BYTES)
        } else {
            None
        };
        let r = self.create_token_from(user_id, ttl_time, seconds, entropy);
        proof {
            assert(token_view(r) == issued_from(
                self.secret(),
                user_id,
                ttl_time,
                epoch_seconds(reading),
                entropy_view(entropy),
            ));
        }
        r
    }

    /// What the decoder makes of `token` under the held secret. A text that
    /// has not the frame of a token, or whose header does not read, is
    /// refused before the decoder sees it.
    pub fn decode_outcome(&self, token: &str) -> (r: Result<serde_json::Value, DecodeFailure>)
        ensures
            outcome_view(r) == decoding(self.secret(), token@),
    {
        if !well_framed(token) || !jwt_header_reads(token) {
            return Err(DecodeFailure::Header);
        }
        match jwt_decode(self.secret.as_str(), token) {
            Ok(payload) => Ok(payload),
            Err(error) => Err(classify(&error)),
        }
    }

    /// Verifies `token` at `now`: its structure, its signature under the held
    /// secret, its claims and its expiry, in this order.
    pub fn decode_at(&self, token: &str, now: u64) -> (r: Result<Claims, TokenError>)
        ensures
            result_view(r) == verdict(decoding(self.secret(), token@), now),
    {
        Claims::judge(self.decode_outcome(token), now)
    }

    /// Verifies `token` at the current time: its structure, its signature
    /// under the held secret and its claims first, and the clock is read only
    /// for a token that passed these.
    pub fn decode(&self, token: &str) -> (r: Result<Claims, TokenError>)
        ensures
            decoding(self.secret(), token@) matches Err(failure) ==> r == Err::<
                Claims,
                TokenError,
            >(failure_error(failure)),
            decoding(self.secret(), token@) matches Ok(payload) && payload_claims(
                payload.0,
                payload.1,
            ) is None ==> r == Err::<Claims, TokenError>(TokenError::MalformedClaims),
            claims_read(decoding(self.secret(), token@)) matches Ok(claims) ==> exists|
                reading: std::time::SystemTime,
            | result_view(r) == timed(claims, #[trigger] epoch_seconds(reading)),
    {
        let claims = match Claims::read(self.decode_outcome(token)) {
            Ok(claims) => claims,
            Err(error) => { return Err(error); },
        };
        let reading = clock_reading();
        match unix_seconds(&reading) {
            Some(now) => {
                let r = claims.valid_at(now);
                proof {
                    assert(result_view(r) == timed(claims@, epoch_seconds(reading)));
                }
                r
            },
            None => {
                proof {
                    assert(timed(claims@, epoch_seconds(reading)) == Err::<
                        crate::claims::ClaimsView,
                        TokenError,
                    >(TokenError::Clock));
                }
                Err(TokenError::Clock)
            },
        }
    }
}

} // verus!
