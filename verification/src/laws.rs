//! What holds of issuing and verifying, whatever the inputs.

use crate::claims::{
    claims_read, decoding, exp_name, expiry, failure_error, id_name, jti_name, payload_claims,
    timed, verdict, ClaimsView, DecodeFailure, TokenError,
};
use crate::framing::{dot_count, has_token_chars, is_framed, segments_sized};
use crate::token::{issued_at, issued_from, signed_claims, signing_result};
use vstd::prelude::*;

verus! {

/// The payload that holds exactly these three claims.
pub open spec fn payload_of(id: i32, exp: u64, jti: Seq<char>) -> (
    Map<Seq<char>, int>,
    Map<Seq<char>, Seq<char>>,
) {
    (
        Map::<Seq<char>, int>::empty().insert(id_name(), id as int).insert(exp_name(), exp as int),
        Map::<Seq<char>, Seq<char>>::empty().insert(jti_name(), jti),
    )
}

/// The three claim names differ from one another.
pub proof fn lemma_names_differ()
    ensures
        id_name() != exp_name(),
        id_name() != jti_name(),
        exp_name() != jti_name(),
{
    reveal_strlit("id");
    reveal_strlit("exp");
    reveal_strlit("jti");
    assert(id_name().len() == 2);
    assert(exp_name().len() == 3);
    assert(jti_name().len() == 3);
    assert(exp_name()[0] == 'e');
    assert(jti_name()[0] == 'j');
}

/// A payload of the three claims reads back as these claims.
pub proof fn lemma_payload_reads_back(id: i32, exp: u64, jti: Seq<char>)
    ensures
        payload_claims(payload_of(id, exp, jti).0, payload_of(id, exp, jti).1) == Some(
            ClaimsView { id: id as int, exp: exp as int, jti },
        ),
{
    lemma_names_differ();
}

/// Round trip: where the decoder hands back the payload that was signed for a
/// subject with a time to live above zero, verifying at the second of issue
/// gives the claims that were issued, the subject among them.
pub proof fn law_round_trip(id: i32, ttl: u64, issued_at: u64, jti: Seq<char>)
    requires
        ttl > 0,
        issued_at < u64::MAX,
    ensures
        verdict(Ok(payload_of(id, expiry(issued_at, ttl), jti)), issued_at) == Ok::<
            ClaimsView,
            TokenError,
        >(ClaimsView { id: id as int, exp: expiry(issued_at, ttl) as int, jti }),
{
    lemma_payload_reads_back(id, expiry(issued_at, ttl), jti);
}

/// A token stays valid up to the second before its expiry and is refused from
/// the second of its expiry on.
pub proof fn law_expiry_boundary(id: i32, exp: u64, jti: Seq<char>, now: u64)
    ensures
        now < exp ==> verdict(Ok(payload_of(id, exp, jti)), now) == Ok::<ClaimsView, TokenError>(
            ClaimsView { id: id as int, exp: exp as int, jti },
        ),
        now >= exp ==> verdict(Ok(payload_of(id, exp, jti)), now) == Err::<
            ClaimsView,
            TokenError,
        >(TokenError::Expired),
{
    lemma_payload_reads_back(id, exp, jti);
}

/// A token issued with no time to live is expired at the second of its issue
/// and at every later one.
pub proof fn law_zero_ttl_expired(id: i32, issued_at: u64, jti: Seq<char>, now: u64)
    requires
        now >= issued_at,
    ensures
        verdict(Ok(payload_of(id, expiry(issued_at, 0), jti)), now) == Err::<
            ClaimsView,
            TokenError,
        >(TokenError::Expired),
{
    law_expiry_boundary(id, expiry(issued_at, 0), jti, now);
}

/// A token whose signature the decoder refuses is never accepted, whatever
/// the clock reads: the verdict is the signature failure.
pub proof fn law_bad_signature_rejected(now: u64)
    ensures
        verdict(Err(DecodeFailure::Signature), now) == Err::<ClaimsView, TokenError>(
            TokenError::InvalidSignature,
        ),
{
}

/// Verifying the same outcome twice at the same second gives the same result,
/// and a refusal of the decoder is reported alike at every second.
pub proof fn law_refusal_ignores_clock(failure: DecodeFailure, now: u64, later: u64)
    ensures
        verdict(Err(failure), now) == verdict(Err(failure), later),
        verdict(Err(failure), now) == Err::<ClaimsView, TokenError>(failure_error(failure)),
{
}

/// A text that has not exactly three segments, or holds a character that is
/// neither a dot nor of the base64url alphabet, or has a segment of a length
/// that base64 cannot have, is refused as malformed, under every secret and
/// at every second, whatever its signature.
pub proof fn law_segment_count(secret: Seq<char>, token: Seq<char>, now: u64)
    requires
        dot_count(token) != 2 || !has_token_chars(token) || !segments_sized(token),
    ensures
        !is_framed(token),
        verdict(decoding(secret, token), now) == Err::<ClaimsView, TokenError>(
            TokenError::MalformedToken,
        ),
        claims_read(decoding(secret, token)) == Err::<ClaimsView, TokenError>(
            TokenError::MalformedToken,
        ),
{
}

/// The failures come in order: what the decoder refused and what the payload
/// lacks is reported whatever the clock reads, and only claims that were read
/// are held against the clock.
pub proof fn law_failures_in_order(
    outcome: Result<(Map<Seq<char>, int>, Map<Seq<char>, Seq<char>>), DecodeFailure>,
    now: u64,
)
    ensures
        verdict(outcome, now) == match claims_read(outcome) {
            Err(error) => Err::<ClaimsView, TokenError>(error),
            Ok(claims) => timed(claims, Some(now)),
        },
        claims_read(outcome) matches Err(error) ==> error != TokenError::Expired && error
            != TokenError::Clock,
{
}

/// Issuing is a function of secret, subject, lifetime, second and identifier
/// bytes: equal inputs give equal results, success and failure alike.
pub proof fn law_issuing_is_a_function(
    secret: Seq<char>,
    other_secret: Seq<char>,
    user_id: i32,
    ttl_time: u64,
    seconds: Option<u64>,
    entropy: Option<Seq<u8>>,
    first: Result<Seq<char>, TokenError>,
    second: Result<Seq<char>, TokenError>,
)
    requires
        secret == other_secret,
        first == issued_from(secret, user_id, ttl_time, seconds, entropy),
        second == issued_from(other_secret, user_id, ttl_time, seconds, entropy),
    ensures
        first == second,
{
}

/// A lifetime that would carry the expiry past the largest second is signed
/// with that largest second: the sum saturates.
pub proof fn law_lifetime_saturates(
    secret: Seq<char>,
    user_id: i32,
    ttl_time: u64,
    now: u64,
    jti: Seq<char>,
)
    requires
        now + ttl_time >= u64::MAX,
    ensures
        expiry(now, ttl_time) == u64::MAX,
        issued_at(secret, user_id, ttl_time, now, jti) == signing_result(
            signed_claims(secret, user_id as int, u64::MAX as int, jti),
        ),
{
}

/// A token is accepted only where the decoder gave a payload that holds the
/// three claims and the expiry lies after the time of verifying; the claims
/// returned are then the payload's.
pub proof fn law_accepted_means_valid(
    outcome: Result<(Map<Seq<char>, int>, Map<Seq<char>, Seq<char>>), DecodeFailure>,
    now: u64,
    claims: ClaimsView,
)
    ensures
        verdict(outcome, now) == Ok::<ClaimsView, TokenError>(claims) <==> (outcome is Ok
            && payload_claims(outcome->Ok_0.0, outcome->Ok_0.1) == Some(claims) && now
            < claims.exp),
{
}

/// Once a token is expired it stays so.
pub proof fn law_expiry_is_final(
    outcome: Result<(Map<Seq<char>, int>, Map<Seq<char>, Seq<char>>), DecodeFailure>,
    now: u64,
    later: u64,
)
    requires
        now <= later,
        verdict(outcome, now) == Err::<ClaimsView, TokenError>(TokenError::Expired),
    ensures
        verdict(outcome, later) == Err::<ClaimsView, TokenError>(TokenError::Expired),
{
}

} // verus!
