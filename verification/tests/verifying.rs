use rustoken::{ClaimValue, Claims, DecodeFailure, RustToken, TokenError};

fn number(n: i64) -> serde_json::Value {
    serde_json::Value::from(n)
}

fn text(s: &str) -> serde_json::Value {
    serde_json::Value::from(s)
}

fn object(members: Vec<(&str, serde_json::Value)>) -> serde_json::Value {
    let mut map = serde_json::Map::new();
    for (name, value) in members {
        map.insert(name.to_string(), value);
    }
    serde_json::Value::Object(map)
}

fn signed(secret: &str, payload: &serde_json::Value) -> String {
    let key = jsonwebtoken::EncodingKey::from_secret(secret.as_bytes());
    jsonwebtoken::encode(&jsonwebtoken::Header::default(), payload, &key).unwrap()
}

fn flip(c: char) -> char {
    if c == 'A' {
        'B'
    } else {
        'A'
    }
}

#[test]
fn tampered_signature_is_rejected() {
    let issuer = RustToken::new("test-secret".to_string());
    let token = issuer.create_token_at(42, 3600, 1000, "abc".to_string()).unwrap();
    let start = token.rfind('.').unwrap() + 1;
    let chars: Vec<char> = token.chars().collect();
    assert_eq!(chars.len() - start, 43);
    for i in start..chars.len() {
        let mut changed = chars.clone();
        changed[i] = flip(chars[i]);
        let forged: String = changed.into_iter().collect();
        assert_ne!(forged, token);
        assert_eq!(issuer.decode_at(&forged, 1001).unwrap_err(), TokenError::InvalidSignature);
    }
    assert!(issuer.decode_at(&token, 1001).is_ok());
}

#[test]
fn tampered_signature_is_rejected_at_the_current_time() {
    let issuer = RustToken::new("test-secret".to_string());
    let token = issuer.create_token(42, 3600).unwrap();
    let mut chars: Vec<char> = token.chars().collect();
    let last = chars.len() - 1;
    chars[last] = flip(chars[last]);
    let forged: String = chars.into_iter().collect();
    assert_eq!(issuer.decode(&forged).unwrap_err(), TokenError::InvalidSignature);
}

#[test]
fn tampered_payload_is_rejected() {
    let issuer = RustToken::new("test-secret".to_string());
    let token = issuer.create_token_at(42, 3600, 1000, "abc".to_string()).unwrap();
    let other = issuer.create_token_at(43, 3600, 1000, "abc".to_string()).unwrap();
    let mine: Vec<&str> = token.split('.').collect();
    let theirs: Vec<&str> = other.split('.').collect();
    let forged = format!("{}.{}.{}", mine[0], theirs[1], mine[2]);
    assert_eq!(issuer.decode_at(&forged, 1001).unwrap_err(), TokenError::InvalidSignature);
}

#[test]
fn wrong_secret_is_rejected() {
    let issuer = RustToken::new("test-secret".to_string());
    let other = RustToken::new("other-secret".to_string());
    let token = issuer.create_token(42, 3600).unwrap();
    assert_eq!(other.decode(&token).unwrap_err(), TokenError::InvalidSignature);
    assert_eq!(other.decode_at(&token, 0).unwrap_err(), TokenError::InvalidSignature);
    assert_eq!(other.decode_at(&token, u64::MAX).unwrap_err(), TokenError::InvalidSignature);
    assert_eq!(issuer.decode(&token).unwrap().id, 42);
}

#[test]
fn text_that_is_no_token_is_malformed() {
    let issuer = RustToken::new("test-secret".to_string());
    for bad in ["", "abc", "a.b", "..", "a.b.c.d", "!!!.???.***", "aaaa.bbbb.cccc", "e30.e30.e30"] {
        assert_eq!(issuer.decode_at(bad, 0).unwrap_err(), TokenError::MalformedToken);
    }
    assert_eq!(issuer.decode("not a token").unwrap_err(), TokenError::MalformedToken);
}

#[test]
fn another_algorithm_is_malformed() {
    let issuer = RustToken::new("test-secret".to_string());
    let key = jsonwebtoken::EncodingKey::from_secret(b"test-secret");
    let header = jsonwebtoken::Header::new(jsonwebtoken::Algorithm::HS384);
    let payload = object(vec![("id", number(1)), ("exp", number(2000)), ("jti", text("a"))]);
    let token = jsonwebtoken::encode(&header, &payload, &key).unwrap();
    assert_eq!(issuer.decode_at(&token, 1000).unwrap_err(), TokenError::MalformedToken);
}

#[test]
fn signed_payload_without_the_claims_is_malformed() {
    let issuer = RustToken::new("s".to_string());
    let cases = vec![
        object(vec![("exp", number(2000)), ("jti", text("a"))]),
        object(vec![("id", number(1)), ("jti", text("a"))]),
        object(vec![("id", number(1)), ("exp", number(2000))]),
        object(vec![("id", text("1")), ("exp", number(2000)), ("jti", text("a"))]),
        object(vec![("id", number(1)), ("exp", text("2000")), ("jti", text("a"))]),
        object(vec![("id", number(1)), ("exp", number(2000)), ("jti", number(7))]),
        object(vec![("id", number(2147483648)), ("exp", number(2000)), ("jti", text("a"))]),
        object(vec![("id", number(-2147483649)), ("exp", number(2000)), ("jti", text("a"))]),
        object(vec![("id", number(1)), ("exp", number(-1)), ("jti", text("a"))]),
        object(vec![]),
    ];
    for payload in cases {
        let token = signed("s", &payload);
        assert_eq!(issuer.decode_at(&token, 1000).unwrap_err(), TokenError::MalformedClaims);
    }
}

#[test]
fn signed_payload_with_the_claims_is_read() {
    let issuer = RustToken::new("s".to_string());
    let payload = object(vec![
        ("id", number(-2147483648)),
        ("exp", serde_json::Value::from(u64::MAX)),
        ("jti", text("")),
        ("extra", serde_json::Value::Bool(true)),
    ]);
    let token = signed("s", &payload);
    let claims = issuer.decode_at(&token, u64::MAX - 1).unwrap();
    assert_eq!(claims.id, i32::MIN);
    assert_eq!(claims.exp, u64::MAX);
    assert_eq!(claims.jti, "");
    assert_eq!(issuer.decode_at(&token, u64::MAX).unwrap_err(), TokenError::Expired);
}

#[test]
fn failures_come_in_order() {
    let issuer = RustToken::new("s".to_string());
    let expired_and_malformed = signed("other", &object(vec![("exp", number(1))]));
    assert_eq!(
        issuer.decode_at(&expired_and_malformed, 1000).unwrap_err(),
        TokenError::InvalidSignature
    );
    let malformed_and_old = signed("s", &object(vec![("exp", number(1))]));
    assert_eq!(
        issuer.decode_at(&malformed_and_old, 1000).unwrap_err(),
        TokenError::MalformedClaims
    );
}

#[test]
fn decode_outcome_classifies_refusals() {
    let issuer = RustToken::new("s".to_string());
    assert_eq!(issuer.decode_outcome("abc").unwrap_err(), DecodeFailure::Header);
    assert_eq!(issuer.decode_outcome("!.!.!").unwrap_err(), DecodeFailure::Header);
    assert_eq!(issuer.decode_outcome("e30.e30.e30").unwrap_err(), DecodeFailure::Header);
    let good = issuer.create_token_at(1, 1, 1, "a".to_string()).unwrap();
    let other = RustToken::new("t".to_string());
    assert_eq!(other.decode_outcome(&good).unwrap_err(), DecodeFailure::Signature);
    let payload = issuer.decode_outcome(&good).unwrap();
    assert_eq!(payload.get("id").and_then(|v| v.as_i64()), Some(1));
    assert_eq!(payload.get("exp").and_then(|v| v.as_u64()), Some(2));
    let with_audience = signed(
        "s",
        &object(vec![("id", number(1)), ("exp", number(9)), ("jti", text("a")), ("aud", text("x"))]),
    );
    assert_eq!(issuer.decode_outcome(&with_audience).unwrap_err(), DecodeFailure::Claim);
    assert_eq!(issuer.decode_at(&with_audience, 1).unwrap_err(), TokenError::MalformedClaims);
}

#[test]
fn judge_reports_each_refusal_under_its_kind() {
    let cases = [
        (DecodeFailure::Structure, TokenError::MalformedToken),
        (DecodeFailure::Encoding, TokenError::MalformedToken),
        (DecodeFailure::Text, TokenError::MalformedToken),
        (DecodeFailure::Algorithm, TokenError::MalformedToken),
        (DecodeFailure::Signature, TokenError::InvalidSignature),
        (DecodeFailure::Payload, TokenError::MalformedClaims),
        (DecodeFailure::Claim, TokenError::MalformedClaims),
        (DecodeFailure::Header, TokenError::MalformedToken),
        (DecodeFailure::Other, TokenError::MalformedToken),
    ];
    for (failure, error) in cases {
        assert_eq!(failure.error(), error);
        assert_eq!(Claims::judge(Err(failure), 0).unwrap_err(), error);
        assert_eq!(Claims::judge(Err(failure), u64::MAX).unwrap_err(), error);
    }
}

#[test]
fn judge_reads_a_payload() {
    let payload = object(vec![("id", number(42)), ("exp", number(1000)), ("jti", text("abc"))]);
    let claims = Claims::judge(Ok(payload.clone()), 999).unwrap();
    assert_eq!(claims.id, 42);
    assert_eq!(claims.exp, 1000);
    assert_eq!(claims.jti, "abc");
    assert_eq!(Claims::judge(Ok(payload.clone()), 1000).unwrap_err(), TokenError::Expired);
    assert_eq!(Claims::judge(Ok(payload), 1001).unwrap_err(), TokenError::Expired);
}

#[test]
fn judge_refuses_a_payload_without_the_claims() {
    let not_an_object = text("id");
    assert_eq!(Claims::judge(Ok(not_an_object), 0).unwrap_err(), TokenError::MalformedClaims);
    let fraction = serde_json::from_str::<serde_json::Value>(
        "{\"id\": 1.5, \"exp\": 1000, \"jti\": \"a\"}",
    )
    .unwrap();
    assert_eq!(Claims::judge(Ok(fraction), 0).unwrap_err(), TokenError::MalformedClaims);
    let float_expiry = serde_json::from_str::<serde_json::Value>(
        "{\"id\": 1, \"exp\": 1000.0, \"jti\": \"a\"}",
    )
    .unwrap();
    assert_eq!(Claims::judge(Ok(float_expiry), 0).unwrap_err(), TokenError::MalformedClaims);
    let wide_id = object(vec![
        ("id", serde_json::Value::from(u64::MAX)),
        ("exp", number(1000)),
        ("jti", text("a")),
    ]);
    assert_eq!(Claims::judge(Ok(wide_id), 0).unwrap_err(), TokenError::MalformedClaims);
    let expired_but_malformed = object(vec![("id", number(1)), ("exp", number(0))]);
    assert_eq!(
        Claims::judge(Ok(expired_but_malformed), 5).unwrap_err(),
        TokenError::MalformedClaims
    );
}

#[test]
fn from_payload_reads_the_three_claims() {
    let payload = object(vec![
        ("id", number(2147483647)),
        ("exp", number(0)),
        ("jti", text("t")),
    ]);
    let claims = Claims::from_payload(&payload).unwrap();
    assert_eq!(claims.id, i32::MAX);
    assert_eq!(claims.exp, 0);
    assert_eq!(claims.jti, "t");
    assert!(Claims::from_payload(&object(vec![("id", number(1))])).is_none());
    assert!(Claims::from_payload(&serde_json::Value::Null).is_none());
}

#[test]
fn expiry_check_is_at_or_after() {
    let claims = Claims::issued(1, 100, 10, String::new());
    assert!(!claims.is_expired_at(0));
    assert!(!claims.is_expired_at(109));
    assert!(claims.is_expired_at(110));
    assert!(claims.is_expired_at(111));
}

#[test]
fn entries_are_subject_expiry_identifier() {
    let claims = Claims::issued(-5, 100, 10, "abc".to_string());
    let entries = claims.entries();
    assert_eq!(entries.len(), 3);
    assert_eq!(entries[0].0, "id");
    assert!(matches!(entries[0].1, ClaimValue::Int(-5)));
    assert_eq!(entries[1].0, "exp");
    assert!(matches!(entries[1].1, ClaimValue::Int(110)));
    assert_eq!(entries[2].0, "jti");
    assert!(matches!(&entries[2].1, ClaimValue::Text(t) if t == "abc"));
}

#[test]
fn entries_hand_on_a_wide_expiry() {
    let claims = Claims::issued(1, u64::MAX, 0, String::new());
    let entries = claims.entries();
    assert!(matches!(entries[1].1, ClaimValue::Wide(u64::MAX)));
    let edge = Claims::issued(1, 9223372036854775807, 0, String::new());
    assert!(matches!(edge.entries()[1].1, ClaimValue::Int(i64::MAX)));
    let above = Claims::issued(1, 9223372036854775807, 1, String::new());
    assert!(matches!(above.entries()[1].1, ClaimValue::Wide(9223372036854775808)));
}

#[test]
fn each_failure_has_its_message() {
    assert_eq!(TokenError::Clock.message(), "system clock is before the Unix epoch");
    assert_eq!(TokenError::Signing.message(), "token could not be signed");
    assert_eq!(TokenError::MalformedToken.message(), "malformed token");
    assert_eq!(TokenError::InvalidSignature.message(), "invalid signature");
    assert_eq!(TokenError::MalformedClaims.message(), "malformed claims");
    assert_eq!(TokenError::Expired.message(), "token has expired");
    assert_eq!(TokenError::Entropy.message(), "entropy source failed");
}

#[test]
fn verifying_twice_gives_the_same_result() {
    let issuer = RustToken::new("test-secret".to_string());
    let token = issuer.create_token_at(9, 10, 100, "abc".to_string()).unwrap();
    let first = issuer.decode_at(&token, 105).unwrap();
    let second = issuer.decode_at(&token, 105).unwrap();
    assert_eq!(first.id, second.id);
    assert_eq!(first.exp, second.exp);
    assert_eq!(first.jti, second.jti);
}

fn signed_raw(secret: &str, payload_segment: &str) -> String {
    let key = jsonwebtoken::EncodingKey::from_secret(secret.as_bytes());
    let message = format!("eyJ0eXAiOiJKV1QiLCJhbGciOiJIUzI1NiJ9.{}", payload_segment);
    let signature =
        jsonwebtoken::crypto::sign(message.as_bytes(), &key, jsonwebtoken::Algorithm::HS256)
            .unwrap();
    format!("{}.{}", message, signature)
}

#[test]
fn signed_payload_that_is_no_base64url_is_malformed() {
    let issuer = RustToken::new("s".to_string());
    let token = signed_raw("s", "!!!!");
    assert_eq!(issuer.decode_outcome(&token).unwrap_err(), DecodeFailure::Header);
    assert_eq!(issuer.decode_at(&token, 0).unwrap_err(), TokenError::MalformedToken);
    assert_eq!(issuer.decode(&token).unwrap_err(), TokenError::MalformedToken);
    let short = signed_raw("s", "a");
    assert_eq!(issuer.decode_outcome(&short).unwrap_err(), DecodeFailure::Header);
    assert_eq!(issuer.decode_at(&short, 0).unwrap_err(), TokenError::MalformedToken);
    let short_unsigned = signed_raw("other", "abcde");
    assert_eq!(issuer.decode_at(&short_unsigned, 0).unwrap_err(), TokenError::MalformedToken);
    let stray_bits = signed_raw("s", "ab");
    assert_eq!(issuer.decode_outcome(&stray_bits).unwrap_err(), DecodeFailure::Encoding);
    assert_eq!(issuer.decode_at(&stray_bits, 0).unwrap_err(), TokenError::MalformedToken);
}

#[test]
fn signed_payload_that_is_no_json_is_malformed_claims() {
    let issuer = RustToken::new("s".to_string());
    let token = signed_raw("s", "eHl6");
    assert_eq!(issuer.decode_outcome(&token).unwrap_err(), DecodeFailure::Payload);
    assert_eq!(issuer.decode_at(&token, 0).unwrap_err(), TokenError::MalformedClaims);
    let empty = signed_raw("s", "");
    assert_eq!(issuer.decode_at(&empty, 0).unwrap_err(), TokenError::MalformedToken);
    let null = signed_raw("s", "bnVsbA");
    assert_eq!(issuer.decode_at(&null, 0).unwrap_err(), TokenError::MalformedClaims);
}

#[test]
fn a_segment_that_is_no_base64url_is_malformed_before_the_signature() {
    let issuer = RustToken::new("s".to_string());
    let payload = signed_raw("other", "!!!!");
    assert_eq!(issuer.decode_at(&payload, 0).unwrap_err(), TokenError::MalformedToken);
    let good = issuer.create_token_at(1, 10, 100, "a".to_string()).unwrap();
    for bad in ['!', '=', '+', '/', ' ', '\u{e9}'] {
        let mut chars: Vec<char> = good.chars().collect();
        let last = chars.len() - 1;
        chars[last] = bad;
        let forged: String = chars.into_iter().collect();
        assert_eq!(issuer.decode_at(&forged, 101).unwrap_err(), TokenError::MalformedToken);
        assert_eq!(issuer.decode(&forged).unwrap_err(), TokenError::MalformedToken);
    }
    assert!(issuer.decode_at(&good, 101).is_ok());
}

#[test]
fn verifying_now_reports_what_comes_before_the_clock() {
    let issuer = RustToken::new("s".to_string());
    assert_eq!(issuer.decode("abc").unwrap_err(), TokenError::MalformedToken);
    let other = RustToken::new("t".to_string()).create_token(1, 60).unwrap();
    assert_eq!(issuer.decode(&other).unwrap_err(), TokenError::InvalidSignature);
    let no_claims = signed("s", &object(vec![("id", number(1))]));
    assert_eq!(issuer.decode(&no_claims).unwrap_err(), TokenError::MalformedClaims);
    let old = issuer.create_token_at(1, 1, 1, "a".to_string()).unwrap();
    assert_eq!(issuer.decode(&old).unwrap_err(), TokenError::Expired);
}

#[test]
fn read_and_valid_at_are_the_two_halves_of_judge() {
    let payload = object(vec![("id", number(42)), ("exp", number(1000)), ("jti", text("abc"))]);
    let claims = Claims::read(Ok(payload.clone())).unwrap();
    assert_eq!(claims.id, 42);
    assert_eq!(claims.exp, 1000);
    assert_eq!(claims.clone().valid_at(999).unwrap().exp, 1000);
    assert_eq!(claims.clone().valid_at(1000).unwrap_err(), TokenError::Expired);
    assert_eq!(
        Claims::read(Err(DecodeFailure::Signature)).unwrap_err(),
        TokenError::InvalidSignature
    );
    assert_eq!(
        Claims::read(Ok(object(vec![("id", number(1))]))).unwrap_err(),
        TokenError::MalformedClaims
    );
}

#[test]
fn frame_is_two_dots_and_base64url() {
    assert!(rustoken::framing::well_framed("ab.cd.ef"));
    assert!(!rustoken::framing::well_framed(".."));
    assert!(!rustoken::framing::well_framed(".cd.ef"));
    assert!(!rustoken::framing::well_framed("ab..ef"));
    assert!(!rustoken::framing::well_framed("ab.cd."));
    assert!(rustoken::framing::well_framed("AZaz09-_.xyz.abcd"));
    assert!(!rustoken::framing::well_framed("a.bc.de"));
    assert!(!rustoken::framing::well_framed("ab.c.de"));
    assert!(!rustoken::framing::well_framed("ab.cd.e"));
    assert!(!rustoken::framing::well_framed("ab.cdefg.hi"));
    assert!(!rustoken::framing::well_framed("a.b"));
    assert!(!rustoken::framing::well_framed("a.b.c.d"));
    assert!(!rustoken::framing::well_framed("a.b.c="));
    assert!(!rustoken::framing::well_framed("a+.b.c"));
    assert!(!rustoken::framing::well_framed("a.b/.c"));
    assert!(!rustoken::framing::well_framed("a. .c"));
    assert!(rustoken::framing::only_token_chars(""));
    assert!(rustoken::framing::only_token_chars("...."));
    assert!(!rustoken::framing::only_token_chars("@"));
    assert!(!rustoken::framing::only_token_chars("["));
    assert!(!rustoken::framing::only_token_chars("`"));
    assert!(!rustoken::framing::only_token_chars("{"));
    assert!(!rustoken::framing::only_token_chars(":"));
    for c in "ABCDEFGHIJKLMNOPQRSTUVWXYZabcdefghijklmnopqrstuvwxyz0123456789-_".chars() {
        assert!(rustoken::framing::base64url_char(c));
    }
}

#[test]
fn dots_are_counted() {
    assert_eq!(rustoken::framing::count_dots(""), 0);
    assert_eq!(rustoken::framing::count_dots("abc"), 0);
    assert_eq!(rustoken::framing::count_dots("."), 1);
    assert_eq!(rustoken::framing::count_dots("a.b.c"), 2);
    assert_eq!(rustoken::framing::count_dots("..."), 3);
    assert_eq!(rustoken::framing::count_dots("\u{e9}.\u{4e16}\u{754c}."), 2);
}

#[test]
fn three_segments_are_two_dots() {
    assert!(rustoken::framing::has_three_segments("a.b.c"));
    assert!(rustoken::framing::has_three_segments(".."));
    assert!(!rustoken::framing::has_three_segments(""));
    assert!(!rustoken::framing::has_three_segments("a.b"));
    assert!(!rustoken::framing::has_three_segments("a.b.c.d"));
}

#[test]
fn segment_lengths_are_those_of_base64() {
    assert!(!rustoken::framing::sized_segments(""));
    assert!(!rustoken::framing::sized_segments("."));
    assert!(!rustoken::framing::sized_segments("ab."));
    assert!(!rustoken::framing::sized_segments(".ab"));
    assert!(!rustoken::framing::sized_segments("ab..ab"));
    assert!(rustoken::framing::sized_segments("ab"));
    assert!(rustoken::framing::sized_segments("abc"));
    assert!(rustoken::framing::sized_segments("abcd"));
    assert!(rustoken::framing::sized_segments("ab.abc.abcd.abcdef"));
    assert!(!rustoken::framing::sized_segments("ab.abc.abcd.."));
    assert!(!rustoken::framing::sized_segments("a"));
    assert!(!rustoken::framing::sized_segments("abcde"));
    assert!(!rustoken::framing::sized_segments("ab.a"));
    assert!(!rustoken::framing::sized_segments("a.ab"));
    assert!(!rustoken::framing::sized_segments("ab.abcde.ab"));
    assert!(!rustoken::framing::sized_segments("ab.ab.abcdefghi"));
}

#[test]
fn a_signature_of_another_length_is_malformed_or_invalid() {
    let issuer = RustToken::new("s".to_string());
    let good = issuer.create_token_at(1, 10, 100, "a".to_string()).unwrap();
    let longer = format!("{}AA", good);
    assert_eq!(issuer.decode_at(&longer, 101).unwrap_err(), TokenError::MalformedToken);
    let much_longer = format!("{}A", good);
    assert_eq!(issuer.decode_at(&much_longer, 101).unwrap_err(), TokenError::InvalidSignature);
    let shorter = &good[..good.len() - 1];
    assert_eq!(issuer.decode_at(shorter, 101).unwrap_err(), TokenError::InvalidSignature);
}

#[test]
fn an_empty_segment_is_malformed() {
    let issuer = RustToken::new("s".to_string());
    let good = issuer.create_token_at(1, 10, 100, "a".to_string()).unwrap();
    let parts: Vec<&str> = good.split('.').collect();
    let no_header = format!(".{}.{}", parts[1], parts[2]);
    let no_payload = format!("{}..{}", parts[0], parts[2]);
    let no_signature = format!("{}.{}.", parts[0], parts[1]);
    for bad in [no_header, no_payload, no_signature] {
        assert_eq!(issuer.decode_outcome(&bad).unwrap_err(), DecodeFailure::Header);
        assert_eq!(issuer.decode_at(&bad, 101).unwrap_err(), TokenError::MalformedToken);
        assert_eq!(issuer.decode(&bad).unwrap_err(), TokenError::MalformedToken);
    }
}

#[test]
fn segment_lengths_are_above_zero_and_not_one_past_four() {
    let expected = [false, false, true, true, true, false, true, true, true, false];
    for (len, want) in expected.iter().enumerate() {
        assert_eq!(rustoken::framing::segment_len(len), *want);
    }
    assert!(rustoken::framing::segment_len(43));
    assert!(!rustoken::framing::segment_len(45));
}

#[test]
fn a_long_text_is_read_in_one_pass() {
    let segment = "ab".repeat(500_000);
    let long = format!("{}.{}.{}", segment, segment, segment);
    assert!(rustoken::framing::well_framed(&long));
    assert_eq!(rustoken::framing::count_dots(&long), 2);
    let issuer = RustToken::new("s".to_string());
    assert_eq!(issuer.decode(&long).unwrap_err(), TokenError::MalformedToken);
    let foreign = format!("{}\u{e9}", long);
    assert!(!rustoken::framing::well_framed(&foreign));
    assert!(!rustoken::framing::only_token_chars(&foreign));
    assert_eq!(issuer.decode(&foreign).unwrap_err(), TokenError::MalformedToken);
}

#[test]
fn a_text_outside_ascii_is_counted_by_its_characters() {
    assert_eq!(rustoken::framing::count_dots("\u{e9}.\u{e9}\u{e9}.\u{4e16}"), 2);
    assert!(rustoken::framing::has_three_segments("\u{e9}.\u{e9}\u{e9}.\u{4e16}"));
    assert!(rustoken::framing::sized_segments("\u{e9}\u{e9}.\u{e9}\u{e9}\u{e9}.\u{4e16}\u{754c}"));
    assert!(!rustoken::framing::sized_segments("\u{e9}.\u{e9}\u{e9}"));
    assert!(!rustoken::framing::only_token_chars("ab\u{e9}"));
    assert!(!rustoken::framing::well_framed("\u{e9}\u{e9}.\u{e9}\u{e9}.\u{e9}\u{e9}"));
}
