use jrep::flow::{AccountRecord, Action, Event};
use jrep::http::{Body, JsonReply, Reply};
use jrep::login::{LoginFlow, LoginStage};
use jrep::password::hash_password;
use jrep::signup::SignupFlow;
use jrep::tokens::TokenContext;
use jrep::validation::{LoginRequest, SignupRequest};
use jsonwebtoken::{decode, DecodingKey, Validation};
use serde_json::Value;

fn ctx() -> TokenContext {
    TokenContext { secret: "login-secret".into(), now: 1_650_000_000 }
}

fn claims_of(token: &str, secret: &str) -> serde_json::Map<String, Value> {
    let mut v = Validation::default();
    v.validate_exp = false;
    decode::<serde_json::Map<String, Value>>(token, &DecodingKey::from_secret(secret.as_bytes()), &v)
        .unwrap()
        .claims
}

fn form(password: &str) -> LoginRequest {
    LoginRequest { email: "ada@example.com".into(), password: password.into() }
}

fn json_failure(act: Action) -> (u16, String) {
    match act {
        Action::Finish(Ok(Reply { status, body: Body::Json(JsonReply::Failure { error }), .. })) => (status, error),
        _ => panic!("not a JSON failure"),
    }
}

fn record(hash: Option<String>, provider: Option<&str>) -> AccountRecord {
    AccountRecord {
        id: 99,
        email: "Ada@Example.com".into(),
        password_hash: hash,
        oauth_provider: provider.map(|p| p.to_string()),
    }
}

#[test]
fn an_invalid_form_is_refused() {
    let (flow, act) = LoginFlow::start(form(""), ctx());
    assert!(matches!(flow.stage, LoginStage::Done));
    assert_eq!(json_failure(act), (400, "Validation failed: ValidationErrors({\"password\": Field([ValidationError { code: \"length\", message: None, params: {\"min\": Number(1), \"value\": String(\"\")} }])})".to_string()));
}

#[test]
fn an_unknown_address_and_a_wrong_password_look_alike() {
    let (mut flow, act) = LoginFlow::start(form("guess"), ctx());
    assert!(matches!(act, Action::LookupEmail(ref e) if e == "ada@example.com"));
    let unknown = json_failure(flow.advance(Event::AccountFound(None)));

    let h = hash_password("the real one").unwrap();
    let (mut flow, _) = LoginFlow::start(form("guess"), ctx());
    let wrong = json_failure(flow.advance(Event::AccountFound(Some(record(Some(h), None)))));
    assert_eq!(unknown, wrong);
    assert_eq!(unknown, (401, "Invalid email or password.".to_string()));
}

#[test]
fn an_oauth_account_takes_no_password() {
    let (mut flow, _) = LoginFlow::start(form("anything"), ctx());
    let act = flow.advance(Event::AccountFound(Some(record(None, Some("github")))));
    assert_eq!(
        json_failure(act),
        (400, "This account is registered with github. Please use the 'Continue with github' button instead.".to_string())
    );
}

#[test]
fn a_local_account_without_hash_is_an_error() {
    let (mut flow, _) = LoginFlow::start(form("anything"), ctx());
    match flow.advance(Event::AccountFound(Some(record(None, None)))) {
        Action::Finish(Err(e)) => {
            assert_eq!(e.status, 500);
            assert_eq!(e.message, "Invalid user account");
        }
        _ => panic!("not an error"),
    }
}

#[test]
fn an_unreadable_hash_is_an_error() {
    let (mut flow, _) = LoginFlow::start(form("anything"), ctx());
    match flow.advance(Event::AccountFound(Some(record(Some("garbage".into()), None)))) {
        Action::Finish(Err(e)) => {
            assert_eq!(e.status, 500);
            assert_eq!(
                e.message,
                "Password verification error: Invalid hash: the hash format is malformed; expected 60 ASCII bytes"
            );
        }
        _ => panic!("not an error"),
    }
}

#[test]
fn a_login_lookup_failure_is_a_database_error() {
    let (mut flow, _) = LoginFlow::start(form("anything"), ctx());
    match flow.advance(Event::DatabaseFailed) {
        Action::Finish(Err(e)) => assert_eq!((e.status, e.message.as_str()), (500, "Database operation failed")),
        _ => panic!("not an error"),
    }
}

#[test]
fn the_signup_password_opens_the_account() {
    let signup = SignupRequest {
        email: "ada@example.com".into(),
        username: "ada".into(),
        password: "analytical".into(),
        name: "Ada".into(),
    };
    let (mut s, _) = SignupFlow::start(signup, 5, ctx());
    s.advance(Event::AccountFound(None));
    let stored = match s.advance(Event::UsernameTaken(false)) {
        Action::CreateAccount(a) => a,
        _ => panic!("no account stored"),
    };
    let acc = AccountRecord {
        id: stored.id,
        email: stored.email.clone(),
        password_hash: stored.password_hash.clone(),
        oauth_provider: stored.oauth_provider.clone(),
    };
    let (mut flow, _) = LoginFlow::start(form("analytical"), ctx());
    match flow.advance(Event::AccountFound(Some(acc))) {
        Action::Finish(Ok(r)) => {
            assert_eq!(r.status, 200);
            assert!(matches!(r.body, Body::Json(JsonReply::Success { ref redirect }) if redirect == "/dashboard"));
            assert_eq!(r.cookies.len(), 1);
            assert_eq!(r.cookies[0].name, "auth_token");
            let c = claims_of(&r.cookies[0].value, "login-secret");
            assert_eq!(c["sub"], "00000000-0000-0000-0000-000000000005");
            assert_eq!(c["email"], "ada@example.com");
            assert_eq!(c["exp"], 1_650_086_400u64);
        }
        _ => panic!("no reply"),
    }
    assert!(matches!(flow.stage, LoginStage::Done));
}

#[test]
fn a_session_uses_the_stored_address() {
    let h = hash_password("pw").unwrap();
    let (mut flow, _) = LoginFlow::start(form("pw"), ctx());
    match flow.advance(Event::AccountFound(Some(record(Some(h), None)))) {
        Action::Finish(Ok(r)) => {
            let c = claims_of(&r.cookies[0].value, "login-secret");
            assert_eq!(c.len(), 3);
            assert_eq!(c["sub"], "00000000-0000-0000-0000-000000000063");
            assert_eq!(c["email"], "Ada@Example.com");
        }
        _ => panic!("no session"),
    }
}
