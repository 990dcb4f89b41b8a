//! Sign-in with Google and GitHub: the addresses the visitor is sent to, the
//! requests that trade a code for a token, and the identity read from a
//! provider's profile.

use vstd::prelude::*;
use crate::error::{ExternalFailure, ExternalFailureView};
use crate::http::{Reply, see_other, see_other_view};
use crate::text::{join_str, decimal, decimal_string, owned};

verus! {

/// The OAuth applications of the site and the base of its own address.
#[derive(Debug)]
pub struct OAuthConfig {
    pub google_client_id: String,
    pub google_client_secret: String,
    pub github_client_id: String,
    pub github_client_secret: String,
    pub redirect_base_url: String,
}

/// The base of the site's own address: the configured one, else
/// `http://localhost:8080`.
pub fn redirect_base_or_default(configured: Option<String>) -> (r: String)
    ensures
        r@ == match configured {
            Some(c) => c@,
            None => "http://localhost:8080"@,
        },
{
    match configured {
        Some(c) => c,
        None => owned("http://localhost:8080"),
    }
}

/// An identity provider.
#[derive(Clone, Copy, Debug)]
pub enum Provider {
    Google,
    GitHub,
}

/// The name a provider is stored under.
pub open spec fn provider_name(p: Provider) -> Seq<char> {
    match p {
        Provider::Google => "google"@,
        Provider::GitHub => "github"@,
    }
}

/// The name a provider is stored under.
pub fn provider_label(p: Provider) -> (r: &'static str)
    ensures
        r@ == provider_name(p),
{
    match p {
        Provider::Google => "google",
        Provider::GitHub => "github",
    }
}

/// Google's consent page for this site.
pub open spec fn google_auth_url_text(config: OAuthConfig) -> Seq<char> {
    "https://accounts.google.com/o/oauth2/v2/auth?client_id="@ + config.google_client_id@
        + "&redirect_uri="@ + config.redirect_base_url@
        + "/auth/google/callback&response_type=code&scope=email%20profile&access_type=offline"@
}

/// GitHub's consent page for this site.
pub open spec fn github_auth_url_text(config: OAuthConfig) -> Seq<char> {
    "https://github.com/login/oauth/authorize?client_id="@ + config.github_client_id@
        + "&redirect_uri="@ + config.redirect_base_url@ + "/auth/github/callback&scope=user:email"@
}

/// The address Google sends the visitor back to.
pub open spec fn google_callback_url(config: OAuthConfig) -> Seq<char> {
    config.redirect_base_url@ + "/auth/google/callback"@
}

impl OAuthConfig {
    /// Google's consent page for this site.
    pub fn google_auth_url(&self) -> (r: String)
        ensures
            r@ == google_auth_url_text(*self),
    {
        let mut u = join_str(
            "https://accounts.google.com/o/oauth2/v2/auth?client_id=",
            self.google_client_id.as_str(),
        );
        u.append("&redirect_uri=");
        u.append(self.redirect_base_url.as_str());
        u.append("/auth/google/callback&response_type=code&scope=email%20profile&access_type=offline");
        u
    }

    /// GitHub's consent page for this site.
    pub fn github_auth_url(&self) -> (r: String)
        ensures
            r@ == github_auth_url_text(*self),
    {
        let mut u = join_str(
            "https://github.com/login/oauth/authorize?client_id=",
            self.github_client_id.as_str(),
        );
        u.append("&redirect_uri=");
        u.append(self.redirect_base_url.as_str());
        u.append("/auth/github/callback&scope=user:email");
        u
    }
}

/// The reply that starts a Google sign-in: see Google's consent page.
pub fn google_auth_start(config: &OAuthConfig) -> (r: Reply)
    ensures
        r@ == see_other_view(google_auth_url_text(*config), Seq::empty()),
{
    let url = config.google_auth_url();
    let cookies = Vec::new();
    let r = see_other(url.as_str(), cookies);
    assert(crate::http::cookie_views(cookies@) =~= Seq::empty());
    r
}

/// The reply that starts a GitHub sign-in: see GitHub's consent page.
pub fn github_auth_start(config: &OAuthConfig) -> (r: Reply)
    ensures
        r@ == see_other_view(github_auth_url_text(*config), Seq::empty()),
{
    let url = config.github_auth_url();
    let cookies = Vec::new();
    let r = see_other(url.as_str(), cookies);
    assert(crate::http::cookie_views(cookies@) =~= Seq::empty());
    r
}

/// A form posted to a provider to trade an authorization code for a token.
#[derive(Debug)]
pub struct TokenRequest {
    pub url: String,
    /// The one header that the request sets: name and value.
    pub header: (String, String),
    pub form: Vec<(String, String)>,
}

/// The views of a list of string pairs.
pub open spec fn form_views(v: Seq<(String, String)>) -> Seq<(Seq<char>, Seq<char>)> {
    v.map_values(|p: (String, String)| (p.0@, p.1@))
}

fn pair(a: &str, b: &str) -> (r: (String, String))
    ensures
        r.0@ == a@,
        r.1@ == b@,
{
    (owned(a), owned(b))
}

/// The request that trades Google's `code` for an access token.
pub fn google_token_request(config: &OAuthConfig, code: &str) -> (r: TokenRequest)
    ensures
        r.url@ == "https://oauth2.googleapis.com/token"@,
        r.header.0@ == "Content-Type"@,
        r.header.1@ == "application/x-www-form-urlencoded"@,
        form_views(r.form@) == seq![
            ("code"@, code@),
            ("client_id"@, config.google_client_id@),
            ("client_secret"@, config.google_client_secret@),
            ("redirect_uri"@, google_callback_url(*config)),
            ("grant_type"@, "authorization_code"@),
        ],
{
    let redirect = join_str(config.redirect_base_url.as_str(), "/auth/google/callback");
    let mut form: Vec<(String, String)> = Vec::new();
    form.push(pair("code", code));
    form.push(pair("client_id", config.google_client_id.as_str()));
    form.push(pair("client_secret", config.google_client_secret.as_str()));
    form.push(pair("redirect_uri", redirect.as_str()));
    form.push(pair("grant_type", "authorization_code"));
    assert(form_views(form@) =~= seq![
        ("code"@, code@),
        ("client_id"@, config.google_client_id@),
        ("client_secret"@, config.google_client_secret@),
        ("redirect_uri"@, google_callback_url(*config)),
        ("grant_type"@, "authorization_code"@),
    ]);
    TokenRequest {
        url: owned("https://oauth2.googleapis.com/token"),
        header: pair("Content-Type", "application/x-www-form-urlencoded"),
        form,
    }
}

/// The request that trades GitHub's `code` for an access token.
pub fn github_token_request(config: &OAuthConfig, code: &str) -> (r: TokenRequest)
    ensures
        r.url@ == "https://github.com/login/oauth/access_token"@,
        r.header.0@ == "Accept"@,
        r.header.1@ == "application/json"@,
        form_views(r.form@) == seq![
            ("code"@, code@),
            ("client_id"@, config.github_client_id@),
            ("client_secret"@, config.github_client_secret@),
        ],
{
    let mut form: Vec<(String, String)> = Vec::new();
    form.push(pair("code", code));
    form.push(pair("client_id", config.github_client_id.as_str()));
    form.push(pair("client_secret", config.github_client_secret.as_str()));
    assert(form_views(form@) =~= seq![
        ("code"@, code@),
        ("client_id"@, config.github_client_id@),
        ("client_secret"@, config.github_client_secret@),
    ]);
    TokenRequest {
        url: owned("https://github.com/login/oauth/access_token"),
        header: pair("Accept", "application/json"),
        form,
    }
}

/// Whether an HTTP status is a success (2xx).
pub open spec fn is_success(status: u16) -> bool {
    200 <= status <= 299
}

/// Judges Google's reply to a token request: a non-2xx status is a refusal
/// that carries the status line and the body.
pub fn check_token_status(status: u16, status_line: &str, body: &str) -> (r: Result<
    (),
    ExternalFailure,
>)
    ensures
        match r {
            Ok(_) => is_success(status),
            Err(f) => !is_success(status) && f@ == (ExternalFailureView::GoogleTokenRejected {
                status: status_line@,
                body: body@,
            }),
        },
{
    if 200 <= status && status <= 299 {
        Ok(())
    } else {
        Err(ExternalFailure::GoogleTokenRejected { status: owned(status_line), body: owned(body) })
    }
}

/// The profile Google returns.
#[derive(Debug)]
pub struct GoogleProfile {
    pub email: String,
    pub name: String,
    pub picture: Option<String>,
    pub sub: String,
}

/// The profile GitHub returns.
#[derive(Debug)]
pub struct GitHubUser {
    pub email: Option<String>,
    pub name: Option<String>,
    pub login: String,
    pub id: u64,
    pub avatar_url: Option<String>,
}

/// One of the e-mail addresses GitHub lists for a user.
#[derive(Debug)]
pub struct GitHubEmail {
    pub email: String,
    pub primary: bool,
    pub verified: bool,
}

/// A provider's profile.
#[derive(Debug)]
pub enum OAuthProfile {
    Google(GoogleProfile),
    GitHub { user: GitHubUser, emails: Vec<GitHubEmail> },
}

/// Who a visitor is, according to a provider.
#[derive(Debug)]
pub struct OAuthIdentity {
    pub email: String,
    pub name: String,
    pub oauth_id: String,
    pub provider: String,
}

/// What an [`OAuthIdentity`] stands for.
pub struct IdentityView {
    pub email: Seq<char>,
    pub name: Seq<char>,
    pub oauth_id: Seq<char>,
    pub provider: Seq<char>,
}

impl View for OAuthIdentity {
    type V = IdentityView;

    open spec fn view(&self) -> IdentityView {
        IdentityView {
            email: self.email@,
            name: self.name@,
            oauth_id: self.oauth_id@,
            provider: self.provider@,
        }
    }
}

/// The first address that is both primary and verified.
pub open spec fn first_primary_verified(emails: Seq<GitHubEmail>) -> Option<Seq<char>>
    decreases emails.len(),
{
    if emails.len() == 0 {
        None
    } else if emails[0].primary && emails[0].verified {
        Some(emails[0].email@)
    } else {
        first_primary_verified(emails.drop_first())
    }
}

/// The address GitHub gives a user who keeps theirs private.
pub open spec fn noreply_email(login: Seq<char>) -> Seq<char> {
    login + "@users.noreply.github.com"@
}

/// The identity read from a provider's profile: GitHub's primary verified
/// address or else the no-reply one, the display name or else the login,
/// and the user number in decimal.
pub open spec fn identity_of(profile: OAuthProfile) -> IdentityView {
    match profile {
        OAuthProfile::Google(p) => IdentityView {
            email: p.email@,
            name: p.name@,
            oauth_id: p.sub@,
            provider: "google"@,
        },
        OAuthProfile::GitHub { user, emails } => IdentityView {
            email: match first_primary_verified(emails@) {
                Some(e) => e,
                None => noreply_email(user.login@),
            },
            name: match user.name {
                Some(n) => n@,
                None => user.login@,
            },
            oauth_id: decimal(user.id as nat),
            provider: "github"@,
        },
    }
}

/// The first address in GitHub's list that is both primary and verified.
pub fn primary_email(emails: &Vec<GitHubEmail>) -> (r: Option<String>)
    ensures
        match r {
            Some(e) => first_primary_verified(emails@) == Some(e@),
            None => first_primary_verified(emails@) is None,
        },
{
    let n = emails.len();
    let mut i: usize = 0;
    assert(emails@.skip(0) =~= emails@);
    while i < n
        invariant
            n == emails@.len(),
            i <= n,
            first_primary_verified(emails@) == first_primary_verified(emails@.skip(i as int)),
        decreases n - i,
    {
        let e = &emails[i];
        proof {
            let s = emails@.skip(i as int);
            assert(s.drop_first() =~= emails@.skip(i + 1));
            assert(s[0] == emails@[i as int]);
        }
        if e.primary && e.verified {
            return Some(e.email.clone());
        }
        i = i + 1;
    }
    None
}

impl OAuthProfile {
    /// The identity the profile gives.
    pub fn identity(&self) -> (r: OAuthIdentity)
        ensures
            r@ == identity_of(*self),
    {
        match self {
            OAuthProfile::Google(p) => OAuthIdentity {
                email: p.email.clone(),
                name: p.name.clone(),
                oauth_id: p.sub.clone(),
                provider: owned("google"),
            },
            OAuthProfile::GitHub { user, emails } => {
                let email = match primary_email(emails) {
                    Some(e) => e,
                    None => join_str(user.login.as_str(), "@users.noreply.github.com"),
                };
                let name = match &user.name {
                    Some(n) => n.clone(),
                    None => user.login.clone(),
                };
                OAuthIdentity {
                    email,
                    name,
                    oauth_id: decimal_string(user.id),
                    provider: owned("github"),
                }
            },
        }
    }
}

proof fn first_primary_verified_is_the_first(emails: Seq<GitHubEmail>)
    ensures
        forall|i: int|
            0 <= i < emails.len() && (#[trigger] emails[i]).primary && emails[i].verified && (forall|
                j: int,
            | 0 <= j < i ==> !(emails[j].primary && emails[j].verified)) ==> first_primary_verified(emails)
                == Some(emails[i].email@),
        (forall|i: int| 0 <= i < emails.len() ==> !((#[trigger] emails[i]).primary && emails[i].verified))
            ==> first_primary_verified(emails) is None,
    decreases emails.len(),
{
    if emails.len() > 0 {
        let rest = emails.drop_first();
        first_primary_verified_is_the_first(rest);
        assert forall|i: int|
            0 <= i < emails.len() && (#[trigger] emails[i]).primary && emails[i].verified && (forall|
                j: int,
            | 0 <= j < i ==> !(emails[j].primary && emails[j].verified)) implies first_primary_verified(
            emails,
        ) == Some(emails[i].email@) by {
            if i > 0 {
                assert(!(emails[0].primary && emails[0].verified));
                assert(rest[i - 1] == emails[i]);
                assert forall|j: int| 0 <= j < i - 1 implies !(rest[j].primary && rest[j].verified) by {
                    assert(rest[j] == emails[j + 1]);
                }
            }
        }
        if forall|i: int| 0 <= i < emails.len() ==> !((#[trigger] emails[i]).primary && emails[i].verified) {
            assert(!(emails[0].primary && emails[0].verified));
            assert forall|i: int| 0 <= i < rest.len() implies !((#[trigger] rest[i]).primary
                && rest[i].verified) by {
                assert(rest[i] == emails[i + 1]);
            }
        }
    }
}

/// A GitHub identity's e-mail address is the first address of GitHub's list
/// that is both primary and verified; where the list has none, it is
/// `login@users.noreply.github.com`. The address shown on the profile itself
/// plays no part.
pub proof fn github_identity_address(user: GitHubUser, emails: Vec<GitHubEmail>)
    ensures
        forall|i: int|
            0 <= i < emails@.len() && (#[trigger] emails@[i]).primary && emails@[i].verified && (forall|
                j: int,
            | 0 <= j < i ==> !(emails@[j].primary && emails@[j].verified)) ==> identity_of(
                OAuthProfile::GitHub { user, emails },
            ).email == emails@[i].email@,
        (forall|i: int| 0 <= i < emails@.len() ==> !((#[trigger] emails@[i]).primary && emails@[i].verified))
            ==> identity_of(OAuthProfile::GitHub { user, emails }).email == user.login@
            + "@users.noreply.github.com"@,
{
    first_primary_verified_is_the_first(emails@);
}

/// Two GitHub profiles with the same login, name, number and e-mail list
/// give the same identity, whatever address each profile shows itself.
pub proof fn github_identity_ignores_the_profile_address(
    u1: GitHubUser,
    u2: GitHubUser,
    emails: Vec<GitHubEmail>,
)
    requires
        u1.login@ == u2.login@,
        u1.name == u2.name,
        u1.id == u2.id,
    ensures
        identity_of(OAuthProfile::GitHub { user: u1, emails }) == identity_of(
            OAuthProfile::GitHub { user: u2, emails },
        ),
{
}

/// Google's consent page sends the visitor back to the configured base
/// address followed by `/auth/google/callback`, the address that the token
/// request names as its redirect.
pub proof fn google_consent_returns_to_the_configured_callback(config: OAuthConfig)
    ensures
        google_callback_url(config) == config.redirect_base_url@ + "/auth/google/callback"@,
        google_auth_url_text(config) == "https://accounts.google.com/o/oauth2/v2/auth?client_id="@
            + config.google_client_id@ + "&redirect_uri="@ + google_callback_url(config)
            + "&response_type=code&scope=email%20profile&access_type=offline"@,
{
    reveal_strlit("/auth/google/callback&response_type=code&scope=email%20profile&access_type=offline");
    reveal_strlit("/auth/google/callback");
    reveal_strlit("&response_type=code&scope=email%20profile&access_type=offline");
    assert(google_auth_url_text(config) =~= "https://accounts.google.com/o/oauth2/v2/auth?client_id="@
        + config.google_client_id@ + "&redirect_uri="@ + google_callback_url(config)
        + "&response_type=code&scope=email%20profile&access_type=offline"@);
}

/// For the same Google application, two configurations give the same
/// consent page exactly when their base addresses agree: the page follows
/// the configured base.
pub proof fn google_consent_follows_the_base(c1: OAuthConfig, c2: OAuthConfig)
    requires
        c1.google_client_id@ == c2.google_client_id@,
    ensures
        (google_auth_url_text(c1) == google_auth_url_text(c2)) == (c1.redirect_base_url@
            == c2.redirect_base_url@),
{
    let head = "https://accounts.google.com/o/oauth2/v2/auth?client_id="@ + c1.google_client_id@
        + "&redirect_uri="@;
    let tail = "/auth/google/callback&response_type=code&scope=email%20profile&access_type=offline"@;
    let b1 = c1.redirect_base_url@;
    let b2 = c2.redirect_base_url@;
    assert(google_auth_url_text(c1) =~= head + b1 + tail);
    assert(google_auth_url_text(c2) =~= head + b2 + tail);
    if google_auth_url_text(c1) == google_auth_url_text(c2) {
        let u = head + b1 + tail;
        assert(b1.len() == b2.len());
        assert(u.subrange(head.len() as int, (head.len() + b1.len()) as int) =~= b1);
        assert((head + b2 + tail).subrange(head.len() as int, (head.len() + b2.len()) as int) =~= b2);
    }
}

} // verus!
