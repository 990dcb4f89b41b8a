use jrep::tokens::{
    create_jwt_token, create_temp_oauth_token, decode_temp_oauth_token, unexpired_claims, Claims,
    TempOAuthClaims, EXPIRY_LEEWAY_SECS, SESSION_LIFETIME_SECS, TEMP_LIFETIME_SECS,
};
use jsonwebtoken::{decode, decode_header, Algorithm, DecodingKey, Validation};
use serde_json::Value;

fn claims_of(token: &str, secret: &str) -> Option<serde_json::Map<String, Value>> {
    let mut v = Validation::default();
    v.validate_exp = false;
    decode::<serde_json::Map<String, Value>>(token, &DecodingKey::from_secret(secret.as_bytes()), &v)
        .ok()
        .map(|d| d.claims)
}

#[test]
fn session_claims_last_a_day() {
    let c = Claims::for_session(42, "ada@example.com", 1_700_000_000);
    assert_eq!(c.sub, 42);
    assert_eq!(c.email, "ada@example.com");
    assert_eq!(c.exp, 1_700_086_400);
    assert_eq!(SESSION_LIFETIME_SECS, 24 * 60 * 60);
    assert_eq!(TEMP_LIFETIME_SECS, 600);
    assert_eq!(EXPIRY_LEEWAY_SECS, 60);
}

#[test]
fn a_session_token_is_an_hs256_jwt_with_three_claims() {
    let t = create_jwt_token("s3cret", 0x2a, "ada@example.com", 1_700_000_000).unwrap();
    assert_eq!(t.split('.').count(), 3);
    let header = decode_header(&t).unwrap();
    assert_eq!(header.alg, Algorithm::HS256);
    assert_eq!(header.typ.as_deref(), Some("JWT"));
    let c = claims_of(&t, "s3cret").unwrap();
    assert_eq!(c.len(), 3);
    assert_eq!(c["sub"], "00000000-0000-0000-0000-00000000002a");
    assert_eq!(c["email"], "ada@example.com");
    assert_eq!(c["exp"], 1_700_086_400u64);
    assert!(claims_of(&t, "other").is_none());
}

#[test]
fn a_session_token_is_no_temporary_token() {
    let t = create_jwt_token("s3cret", 1, "ada@example.com", 1_700_000_000).unwrap();
    let e = decode_temp_oauth_token("s3cret", &t, 1_700_000_000).unwrap_err();
    assert_eq!((e.status, e.message.as_str()), (401, "Invalid or expired token"));
}

#[test]
fn a_temporary_token_reads_back_its_claims() {
    let t = create_temp_oauth_token("k", 7, "ada@gmail.com", "Ada \"Byron\"\n", "123", "google", 1_700_000_000)
        .unwrap();
    let raw = claims_of(&t, "k").unwrap();
    assert_eq!(raw.len(), 6);
    assert_eq!(raw["sub"], "00000000-0000-0000-0000-000000000007");
    assert_eq!(raw["exp"], 1_700_000_600u64);
    let c = decode_temp_oauth_token("k", &t, 1_700_000_000).unwrap();
    assert_eq!(c.sub, 7);
    assert_eq!(c.email, "ada@gmail.com");
    assert_eq!(c.name, "Ada \"Byron\"\n");
    assert_eq!(c.oauth_id, "123");
    assert_eq!(c.oauth_provider, "google");
    assert_eq!(c.exp, 1_700_000_600);
}

#[test]
fn a_temporary_token_expires_after_ten_minutes_and_the_leeway() {
    let t = create_temp_oauth_token("k", 7, "a@b.c", "A", "1", "github", 1_000).unwrap();
    assert!(decode_temp_oauth_token("k", &t, 1_660).is_ok());
    let e = decode_temp_oauth_token("k", &t, 1_661).unwrap_err();
    assert_eq!((e.status, e.message.as_str()), (401, "Invalid or expired token"));
}

#[test]
fn a_foreign_or_broken_token_is_refused() {
    let t = create_temp_oauth_token("k", 7, "a@b.c", "A", "1", "github", 1_000).unwrap();
    assert!(decode_temp_oauth_token("not k", &t, 1_000).is_err());
    assert!(decode_temp_oauth_token("k", "a.b.c", 1_000).is_err());
    assert!(decode_temp_oauth_token("k", "", 1_000).is_err());
}

fn claims(exp: u64) -> TempOAuthClaims {
    TempOAuthClaims {
        sub: 1,
        email: "e".into(),
        name: "n".into(),
        oauth_id: "o".into(),
        oauth_provider: "p".into(),
        exp,
    }
}

#[test]
fn claims_are_kept_until_the_leeway_is_over() {
    assert_eq!(unexpired_claims(Some(claims(100)), 160).unwrap().exp, 100);
    assert_eq!(unexpired_claims(Some(claims(100)), 0).unwrap().exp, 100);
    let e = unexpired_claims(Some(claims(100)), 161).unwrap_err();
    assert_eq!((e.status, e.message.as_str()), (401, "Invalid or expired token"));
    let e = unexpired_claims(None, 0).unwrap_err();
    assert_eq!((e.status, e.message.as_str()), (401, "Invalid or expired token"));
}

#[test]
fn claims_are_written_in_their_declared_order() {
    let t = create_temp_oauth_token("k", 7, "a@b.c", "A", "1", "github", 1_000).unwrap();
    let payload = t.split('.').nth(1).unwrap();
    // {"sub":"00000000-0000-0000-0000-000000000007","email":"a@b.c",...
    assert!(payload.starts_with("eyJzdWIiOiIwMDAwMDAwMC0wMDAwLTAwMDAtMDAwMC0wMDAwMDAwMDAwMDciLCJlbWFpbCI6ImFAYi5jIi"));
}

#[test]
fn a_session_token_is_refused_as_temporary_with_any_secret() {
    let t = create_jwt_token("s3cret", 9, "ada@example.com", 1_700_000_000).unwrap();
    for key in ["s3cret", "other", ""] {
        for at in [0u64, 1_700_000_000, 1_800_000_000] {
            let e = decode_temp_oauth_token(key, &t, at).unwrap_err();
            assert_eq!((e.status, e.message.as_str()), (401, "Invalid or expired token"));
        }
    }
}

#[test]
fn a_text_with_fewer_than_two_dots_is_refused() {
    for text in ["", "abc", "a.b", ".x"] {
        let r = decode_temp_oauth_token("k", text, 0);
        assert!(r.is_err(), "{:?}", text);
    }
}
