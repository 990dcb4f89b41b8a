use jrep::callback::CallbackFlow;
use jrep::oauth::{GitHubEmail, GitHubUser, OAuthProfile, Provider};
use jrep::flow::{AccountRecord, Action, DbFailure, Event};
use jrep::http::{Body, JsonReply, Reply};
use jrep::setup::{conflict_message, SetupFlow, SetupStage};
use jrep::error::AppError;
use jrep::tokens::{create_temp_oauth_token, TempOAuthClaims, TokenContext};
use jrep::validation::UsernameSetupRequest;
use jsonwebtoken::{decode, DecodingKey, Validation};
use serde_json::Value;

const ID: u128 = 0x1111_2222_3333_4444_8555_6666_7777_8888;
const NOW: u64 = 1_700_000_300;

fn ctx() -> TokenContext {
    TokenContext { secret: "setup-secret".into(), now: NOW }
}

fn claims_of(token: &str, secret: &str) -> serde_json::Map<String, Value> {
    let mut v = Validation::default();
    v.validate_exp = false;
    decode::<serde_json::Map<String, Value>>(token, &DecodingKey::from_secret(secret.as_bytes()), &v)
        .unwrap()
        .claims
}

fn temp_cookie(secret: &str, made_at: u64) -> String {
    create_temp_oauth_token(secret, 3, "ada@gmail.com", "Ada", "1234", "google", made_at).unwrap()
}

fn form(u: &str) -> UsernameSetupRequest {
    UsernameSetupRequest { username: u.into() }
}

fn claims() -> TempOAuthClaims {
    TempOAuthClaims {
        sub: 3,
        email: "ada@gmail.com".into(),
        name: "Ada".into(),
        oauth_id: "1234".into(),
        oauth_provider: "google".into(),
        exp: 1_700_000_600,
    }
}

fn json_failure(act: Action) -> (u16, String) {
    match act {
        Action::Finish(Ok(Reply { status, body: Body::Json(JsonReply::Failure { error }), .. })) => (status, error),
        _ => panic!("not a JSON failure"),
    }
}

#[test]
fn an_invalid_username_is_refused() {
    let (flow, act) = SetupFlow::start(form("x"), Some("tok".into()), ID, ctx());
    assert!(matches!(flow.stage, SetupStage::Done));
    assert_eq!(json_failure(act), (400, "Validation failed: ValidationErrors({\"username\": Field([ValidationError { code: \"length\", message: None, params: {\"min\": Number(3), \"max\": Number(30), \"value\": String(\"x\")} }])})".to_string()));
}

#[test]
fn no_temporary_cookie_is_unauthorized() {
    let (_, act) = SetupFlow::start(form("newbie"), None, ID, ctx());
    assert_eq!(
        json_failure(act),
        (401, "No temporary authentication found. Please try logging in again.".to_string())
    );
}

fn expired_text() -> (u16, String) {
    (401, "Invalid or expired session. Please try logging in again.".to_string())
}

#[test]
fn an_unreadable_token_is_unauthorized() {
    let (flow, act) = SetupFlow::start(form("newbie"), Some("tok".into()), ID, ctx());
    assert!(matches!(flow.stage, SetupStage::Done));
    assert_eq!(json_failure(act), expired_text());
}

#[test]
fn a_token_signed_with_another_secret_is_unauthorized() {
    let (_, act) = SetupFlow::start(form("newbie"), Some(temp_cookie("other-secret", NOW)), ID, ctx());
    assert_eq!(json_failure(act), expired_text());
}

#[test]
fn an_expired_token_is_unauthorized() {
    // made 661 seconds ago: ten minutes and the leeway are over
    let (_, act) = SetupFlow::start(form("newbie"), Some(temp_cookie("setup-secret", NOW - 661)), ID, ctx());
    assert_eq!(json_failure(act), expired_text());
    // made 660 seconds ago: still within the leeway
    let (flow, act) = SetupFlow::start(form("newbie"), Some(temp_cookie("setup-secret", NOW - 660)), ID, ctx());
    assert!(matches!(flow.stage, SetupStage::AwaitUsername));
    assert!(matches!(act, Action::LookupUsername(ref u) if u == "newbie"));
}

#[test]
fn a_refused_token_ends_the_setup() {
    let e = AppError { message: "Invalid or expired token".into(), status: 401 };
    let (flow, act) = SetupFlow::resume(form("newbie"), Err(e), ID, ctx());
    assert!(matches!(flow.stage, SetupStage::Done));
    assert_eq!(json_failure(act), expired_text());
}

#[test]
fn a_fresh_token_gives_its_claims() {
    let (flow, act) = SetupFlow::start(form("newbie"), Some(temp_cookie("setup-secret", NOW - 300)), ID, ctx());
    assert!(matches!(act, Action::LookupUsername(ref u) if u == "newbie"));
    assert_eq!(flow.claims.sub, 3);
    assert_eq!(flow.claims.email, "ada@gmail.com");
    assert_eq!(flow.claims.name, "Ada");
    assert_eq!(flow.claims.oauth_id, "1234");
    assert_eq!(flow.claims.oauth_provider, "google");
    assert_eq!(flow.claims.exp, NOW + 300);
}

fn decoded() -> SetupFlow {
    let (flow, act) = SetupFlow::resume(form("newbie"), Ok(claims()), ID, ctx());
    match act {
        Action::LookupUsername(u) => assert_eq!(u, "newbie"),
        _ => panic!("no username lookup"),
    }
    assert!(matches!(flow.stage, SetupStage::AwaitUsername));
    flow
}

#[test]
fn setup_refuses_a_taken_username() {
    let mut flow = decoded();
    let act = flow.advance(Event::UsernameTaken(true));
    assert_eq!(
        json_failure(act),
        (400, "Username is already taken. Please choose a different username.".to_string())
    );
}

#[test]
fn an_address_registered_meanwhile_is_refused() {
    let mut flow = decoded();
    match flow.advance(Event::UsernameTaken(false)) {
        Action::LookupEmail(e) => assert_eq!(e, "ada@gmail.com"),
        _ => panic!("no address lookup"),
    }
    let acc = AccountRecord { id: 1, email: "ada@gmail.com".into(), password_hash: None, oauth_provider: None };
    let act = flow.advance(Event::AccountFound(Some(acc)));
    assert_eq!(json_failure(act), (400, "This email has already been registered.".to_string()));
}

fn to_insert() -> (SetupFlow, Action) {
    let mut flow = decoded();
    flow.advance(Event::UsernameTaken(false));
    let act = flow.advance(Event::AccountFound(None));
    (flow, act)
}

#[test]
fn the_account_carries_the_provider_identity() {
    let (flow, act) = to_insert();
    match act {
        Action::CreateAccount(a) => {
            assert_eq!(a.id, ID);
            assert_eq!(flow.user_id, ID);
            assert_eq!(a.email, "ada@gmail.com");
            assert_eq!(a.username, "newbie");
            assert_eq!(a.name.as_deref(), Some("Ada"));
            assert_eq!(a.oauth_provider.as_deref(), Some("google"));
            assert_eq!(a.oauth_id.as_deref(), Some("1234"));
            assert!(a.password_hash.is_none());
        }
        _ => panic!("no account stored"),
    }
}

#[test]
fn unique_violations_are_explained() {
    for (message, expected) in [
        ("duplicate key value violates unique constraint \"users_username_key\"", "Username is already taken. Please choose a different username."),
        ("duplicate key value violates unique constraint \"USERS_EMAIL_KEY\"", "This email has already been registered."),
        ("duplicate key value violates unique constraint \"users_pkey\"", "This account already exists."),
    ] {
        let (mut flow, _) = to_insert();
        let act = flow.advance(Event::AccountCreated(Err(DbFailure { code: Some("23505".into()), message: message.into() })));
        assert_eq!(json_failure(act), (400, expected.to_string()));
        assert_eq!(conflict_message(message), expected);
    }
}

#[test]
fn other_store_failures_are_database_errors() {
    for code in [Some("23503".to_string()), None] {
        let (mut flow, _) = to_insert();
        match flow.advance(Event::AccountCreated(Err(DbFailure { code, message: "username".into() }))) {
            Action::Finish(Err(e)) => assert_eq!((e.status, e.message.as_str()), (500, "Database operation failed")),
            _ => panic!("not an error"),
        }
    }
}

#[test]
fn success_swaps_the_cookies() {
    let (mut flow, _) = to_insert();
    match flow.advance(Event::AccountCreated(Ok(()))) {
        Action::Finish(Ok(r)) => {
            assert_eq!(r.status, 200);
            assert!(matches!(r.body, Body::Json(JsonReply::Success { ref redirect }) if redirect == "/dashboard"));
            assert_eq!(r.cookies.len(), 2);
            assert_eq!(r.cookies[0].name, "temp_auth");
            assert_eq!(r.cookies[0].value, "");
            assert_eq!(r.cookies[0].max_age_seconds, Some(0));
            assert_eq!(r.cookies[1].name, "auth_token");
            let c = claims_of(&r.cookies[1].value, "setup-secret");
            assert_eq!(c.len(), 3);
            assert_eq!(c["sub"], "11112222-3333-4444-8555-666677778888");
            assert_eq!(c["email"], "ada@gmail.com");
            assert_eq!(c["exp"], NOW + 86_400);
        }
        _ => panic!("no reply"),
    }
    assert!(matches!(flow.stage, SetupStage::Done));
}

#[test]
fn the_provider_identity_reaches_the_stored_account() {
    let cb_ctx = TokenContext { secret: "setup-secret".into(), now: NOW - 100 };
    let (mut cb, _) = CallbackFlow::start(Provider::GitHub, "code=abc", 77, cb_ctx);
    cb.advance(Event::CodeExchanged(Ok("t".into())));
    let profile = OAuthProfile::GitHub {
        user: GitHubUser { email: None, name: Some("Octo Cat".into()), login: "octo".into(), id: 9001, avatar_url: None },
        emails: vec![GitHubEmail { email: "octo@cat.io".into(), primary: true, verified: true }],
    };
    cb.advance(Event::ProfileFetched(Ok(profile)));
    let cookie = match cb.advance(Event::AccountFound(None)) {
        Action::Finish(Ok(r)) => r.cookies[0].value.clone(),
        _ => panic!("no temporary token"),
    };
    let (mut flow, _) = SetupFlow::start(form("octo_cat"), Some(cookie), ID, ctx());
    assert_eq!(flow.claims.sub, 77);
    flow.advance(Event::UsernameTaken(false));
    match flow.advance(Event::AccountFound(None)) {
        Action::CreateAccount(a) => {
            assert_eq!(a.id, ID);
            assert_eq!(a.email, "octo@cat.io");
            assert_eq!(a.name.as_deref(), Some("Octo Cat"));
            assert_eq!(a.oauth_provider.as_deref(), Some("github"));
            assert_eq!(a.oauth_id.as_deref(), Some("9001"));
            assert_eq!(a.username, "octo_cat");
            assert!(a.password_hash.is_none());
        }
        _ => panic!("no account stored"),
    }
}
