use jrep::callback::{CallbackFlow, CallbackStage};
use jrep::error::ExternalFailure;
use jrep::flow::{AccountRecord, Action, Event};
use jrep::http::{Body, Reply};
use jrep::oauth::{GitHubEmail, GitHubUser, GoogleProfile, OAuthProfile, Provider};
use jrep::tokens::{decode_temp_oauth_token, TokenContext};
use jsonwebtoken::{decode, DecodingKey, Validation};
use serde_json::Value;

const TEMP_ID: u128 = 0xfedc_ba98_7654_4321_8765_4321_0fed_cba9;

fn ctx() -> TokenContext {
    TokenContext { secret: "callback-secret".into(), now: 1_700_000_000 }
}

fn start(provider: Provider, query: &str) -> (CallbackFlow, Action) {
    CallbackFlow::start(provider, query, TEMP_ID, ctx())
}

fn claims_of(token: &str, secret: &str) -> serde_json::Map<String, Value> {
    let mut v = Validation::default();
    v.validate_exp = false;
    decode::<serde_json::Map<String, Value>>(token, &DecodingKey::from_secret(secret.as_bytes()), &v)
        .unwrap()
        .claims
}

fn error_of(act: Action) -> (u16, String) {
    match act {
        Action::Finish(Err(e)) => (e.status, e.message),
        _ => panic!("not an error"),
    }
}

fn google_profile() -> OAuthProfile {
    OAuthProfile::Google(GoogleProfile {
        email: "ada@gmail.com".into(),
        name: "Ada".into(),
        picture: None,
        sub: "1234".into(),
    })
}

fn record(provider: Option<&str>) -> AccountRecord {
    AccountRecord {
        id: 5,
        email: "ada@gmail.com".into(),
        password_hash: None,
        oauth_provider: provider.map(|p| p.to_string()),
    }
}

#[test]
fn a_missing_code_is_a_bad_request() {
    let (flow, act) = start(Provider::Google, "state=abc");
    assert!(matches!(flow.stage, CallbackStage::Done));
    assert_eq!(
        error_of(act),
        (400, "Missing 'code' parameter in callback. Available params: [\"state\"]".to_string())
    );
}

#[test]
fn a_short_google_code_is_refused() {
    let (_, act) = start(Provider::Google, "code=123456789");
    assert_eq!(error_of(act), (400, "Invalid authorization code received from Google".to_string()));
    let (_, act) = start(Provider::Google, "code=");
    assert_eq!(error_of(act), (400, "Invalid authorization code received from Google".to_string()));
    // ten bytes, five characters
    let (_, act) = start(Provider::Google, "code=%C3%A9%C3%A9%C3%A9%C3%A9%C3%A9");
    assert!(matches!(act, Action::ExchangeCode { .. }));
}

#[test]
fn a_google_error_parameter_is_reported() {
    let (_, act) = start(
        Provider::Google,
        "code=0123456789&error=access_denied&error_description=User+said+no",
    );
    assert_eq!(error_of(act), (400, "OAuth error: access_denied - User said no".to_string()));
    let (_, act) = start(Provider::Google, "code=0123456789&error=access_denied");
    assert_eq!(error_of(act), (400, "OAuth error: access_denied - ".to_string()));
}

#[test]
fn github_takes_any_code() {
    let (flow, act) = start(Provider::GitHub, "code=x&error=ignored");
    assert!(matches!(flow.stage, CallbackStage::AwaitToken));
    match act {
        Action::ExchangeCode { provider, code } => {
            assert!(matches!(provider, Provider::GitHub));
            assert_eq!(code, "x");
        }
        _ => panic!("no exchange"),
    }
}

fn to_account_lookup() -> CallbackFlow {
    let (mut flow, act) = start(Provider::Google, "code=0123456789abc");
    assert!(matches!(act, Action::ExchangeCode { ref code, .. } if code == "0123456789abc"));
    match flow.advance(Event::CodeExchanged(Ok("access".into()))) {
        Action::FetchProfile { provider, access_token } => {
            assert!(matches!(provider, Provider::Google));
            assert_eq!(access_token, "access");
        }
        _ => panic!("no profile fetch"),
    }
    match flow.advance(Event::ProfileFetched(Ok(google_profile()))) {
        Action::LookupEmail(e) => assert_eq!(e, "ada@gmail.com"),
        _ => panic!("no lookup"),
    }
    flow
}

#[test]
fn outside_failures_end_the_callback() {
    let (mut flow, _) = start(Provider::Google, "code=0123456789abc");
    let act = flow.advance(Event::CodeExchanged(Err(ExternalFailure::GoogleTokenParse)));
    assert_eq!(error_of(act), (500, "Failed to parse OAuth response".to_string()));

    let (mut flow, _) = start(Provider::GitHub, "code=abc");
    flow.advance(Event::CodeExchanged(Ok("t".into())));
    let act = flow.advance(Event::ProfileFetched(Err(ExternalFailure::GitHubEmailsFetch)));
    assert_eq!(error_of(act), (500, "Failed to fetch user emails".to_string()));
}

#[test]
fn a_password_account_cannot_sign_in_through_oauth() {
    let mut flow = to_account_lookup();
    match flow.advance(Event::AccountFound(Some(record(None)))) {
        Action::Finish(Ok(Reply { status, body: Body::Text(t), .. })) => {
            assert_eq!(status, 400);
            assert_eq!(t, "This email is already registered with a password. Please log in using your email and password instead.");
        }
        _ => panic!("not refused"),
    }
}

#[test]
fn a_known_oauth_account_gets_a_session() {
    let mut flow = to_account_lookup();
    match flow.advance(Event::AccountFound(Some(record(Some("google"))))) {
        Action::Finish(Ok(r)) => {
            assert_eq!(r.status, 303);
            assert_eq!(r.location.as_deref(), Some("/dashboard"));
            assert_eq!(r.cookies.len(), 1);
            assert_eq!(r.cookies[0].name, "auth_token");
            let c = claims_of(&r.cookies[0].value, "callback-secret");
            assert_eq!(c.len(), 3);
            assert_eq!(c["sub"], "00000000-0000-0000-0000-000000000005");
            assert_eq!(c["email"], "ada@gmail.com");
            assert_eq!(c["exp"], 1_700_086_400u64);
        }
        _ => panic!("no session"),
    }
    assert!(matches!(flow.stage, CallbackStage::Done));
}

#[test]
fn a_new_user_is_sent_to_pick_a_username() {
    let mut flow = to_account_lookup();
    match flow.advance(Event::AccountFound(None)) {
        Action::Finish(Ok(r)) => {
            assert_eq!(r.status, 303);
            assert_eq!(r.location.as_deref(), Some("/username-setup"));
            assert_eq!(r.cookies.len(), 1);
            assert_eq!(r.cookies[0].name, "temp_auth");
            assert_eq!(r.cookies[0].max_age_seconds, Some(600));
            let token = r.cookies[0].value.as_str();
            let c = claims_of(token, "callback-secret");
            assert_eq!(c.len(), 6);
            assert_eq!(c["sub"], "fedcba98-7654-4321-8765-43210fedcba9");
            assert_eq!(c["oauth_provider"], "google");
            assert_eq!(c["exp"], 1_700_000_600u64);
            let back = decode_temp_oauth_token("callback-secret", token, 1_700_000_100).unwrap();
            assert_eq!(back.sub, TEMP_ID);
            assert_eq!(back.email, "ada@gmail.com");
            assert_eq!(back.name, "Ada");
            assert_eq!(back.oauth_id, "1234");
            assert_eq!(back.oauth_provider, "google");
            assert_eq!(back.exp, 1_700_000_600);
        }
        _ => panic!("no temporary token"),
    }
}

#[test]
fn github_profile_gives_the_noreply_address() {
    let (mut flow, _) = start(Provider::GitHub, "code=abc");
    flow.advance(Event::CodeExchanged(Ok("t".into())));
    let profile = OAuthProfile::GitHub {
        user: GitHubUser { email: None, name: None, login: "octo".into(), id: 42, avatar_url: None },
        emails: vec![GitHubEmail { email: "x@y.z".into(), primary: false, verified: true }],
    };
    match flow.advance(Event::ProfileFetched(Ok(profile))) {
        Action::LookupEmail(e) => assert_eq!(e, "octo@users.noreply.github.com"),
        _ => panic!("no lookup"),
    }
    match flow.advance(Event::DatabaseFailed) {
        Action::Finish(Err(e)) => assert_eq!(e.message, "Database operation failed"),
        _ => panic!("not an error"),
    }
}
