//! Replies and cookies, as plain values that the web layer sends.

use vstd::prelude::*;
use crate::error::{AppError, AppErrorView, STATUS_OK, STATUS_SEE_OTHER};
use crate::text::owned;

verus! {

/// The `SameSite` attribute of a cookie.
#[derive(Clone, Copy, Debug)]
pub enum SameSite {
    Strict,
    Lax,
    NoRestriction,
}

/// A cookie to set on the client.
#[derive(Debug)]
pub struct CookieSpec {
    pub name: String,
    pub value: String,
    pub path: String,
    pub same_site: Option<SameSite>,
    pub http_only: bool,
    /// Lifetime in seconds; `None` makes a session cookie.
    pub max_age_seconds: Option<i64>,
}

/// What a [`CookieSpec`] stands for.
pub struct CookieView {
    pub name: Seq<char>,
    pub value: Seq<char>,
    pub path: Seq<char>,
    pub same_site: Option<SameSite>,
    pub http_only: bool,
    pub max_age_seconds: Option<i64>,
}

impl View for CookieSpec {
    type V = CookieView;

    open spec fn view(&self) -> CookieView {
        CookieView {
            name: self.name@,
            value: self.value@,
            path: self.path@,
            same_site: self.same_site,
            http_only: self.http_only,
            max_age_seconds: self.max_age_seconds,
        }
    }
}

/// The JSON body of a reply to a form posted by script.
#[derive(Debug)]
pub enum JsonReply {
    /// `{"success": false, "error": ..}`
    Failure { error: String },
    /// `{"success": true, "redirect": ..}`
    Success { redirect: String },
}

/// What a [`JsonReply`] stands for.
pub enum JsonView {
    Failure(Seq<char>),
    Success(Seq<char>),
}

impl View for JsonReply {
    type V = JsonView;

    open spec fn view(&self) -> JsonView {
        match self {
            JsonReply::Failure { error } => JsonView::Failure(error@),
            JsonReply::Success { redirect } => JsonView::Success(redirect@),
        }
    }
}

/// The body of a reply.
#[derive(Debug)]
pub enum Body {
    Empty,
    Text(String),
    Html(String),
    Json(JsonReply),
}

/// What a [`Body`] stands for.
pub enum BodyView {
    Empty,
    Text(Seq<char>),
    Html(Seq<char>),
    Json(JsonView),
}

impl View for Body {
    type V = BodyView;

    open spec fn view(&self) -> BodyView {
        match self {
            Body::Empty => BodyView::Empty,
            Body::Text(t) => BodyView::Text(t@),
            Body::Html(h) => BodyView::Html(h@),
            Body::Json(j) => BodyView::Json(j@),
        }
    }
}

/// An HTTP reply: status, `Location` header, cookies to set, and body.
#[derive(Debug)]
pub struct Reply {
    pub status: u16,
    pub location: Option<String>,
    pub cookies: Vec<CookieSpec>,
    pub body: Body,
}

/// What a [`Reply`] stands for.
pub struct ReplyView {
    pub status: u16,
    pub location: Option<Seq<char>>,
    pub cookies: Seq<CookieView>,
    pub body: BodyView,
}

/// The views of a list of cookies.
pub open spec fn cookie_views(cookies: Seq<CookieSpec>) -> Seq<CookieView> {
    cookies.map_values(|c: CookieSpec| c@)
}

impl View for Reply {
    type V = ReplyView;

    open spec fn view(&self) -> ReplyView {
        ReplyView {
            status: self.status,
            location: match self.location {
                Some(l) => Some(l@),
                None => None,
            },
            cookies: cookie_views(self.cookies@),
            body: self.body@,
        }
    }
}

/// The cookie that carries a session token.
pub open spec fn auth_cookie_view(token: Seq<char>) -> CookieView {
    CookieView {
        name: "auth_token"@,
        value: token,
        path: "/"@,
        same_site: Some(SameSite::Lax),
        http_only: true,
        max_age_seconds: None,
    }
}

/// The cookie that carries a temporary OAuth token for ten minutes.
pub open spec fn temp_auth_cookie_view(token: Seq<char>) -> CookieView {
    CookieView {
        name: "temp_auth"@,
        value: token,
        path: "/"@,
        same_site: Some(SameSite::Lax),
        http_only: true,
        max_age_seconds: Some(600),
    }
}

/// The cookie that makes the client drop its session cookie.
pub open spec fn logout_cookie_view() -> CookieView {
    CookieView {
        name: "auth_token"@,
        value: Seq::empty(),
        path: "/"@,
        same_site: None,
        http_only: true,
        max_age_seconds: Some(0),
    }
}

/// The cookie that makes the client drop its temporary OAuth cookie.
pub open spec fn temp_auth_removal_cookie_view() -> CookieView {
    CookieView {
        name: "temp_auth"@,
        value: Seq::empty(),
        path: "/"@,
        same_site: None,
        http_only: true,
        max_age_seconds: Some(0),
    }
}

/// A `303 See Other` reply to `location`.
pub open spec fn see_other_view(location: Seq<char>, cookies: Seq<CookieView>) -> ReplyView {
    ReplyView { status: STATUS_SEE_OTHER, location: Some(location), cookies, body: BodyView::Empty }
}

/// A plain-text reply.
pub open spec fn text_view(status: u16, body: Seq<char>) -> ReplyView {
    ReplyView { status, location: None, cookies: Seq::empty(), body: BodyView::Text(body) }
}

/// A JSON failure reply.
pub open spec fn json_failure_view(status: u16, error: Seq<char>) -> ReplyView {
    ReplyView {
        status,
        location: None,
        cookies: Seq::empty(),
        body: BodyView::Json(JsonView::Failure(error)),
    }
}

/// A `200 OK` JSON success reply that sends the client on to `redirect`.
pub open spec fn json_success_view(redirect: Seq<char>, cookies: Seq<CookieView>) -> ReplyView {
    ReplyView {
        status: STATUS_OK,
        location: None,
        cookies,
        body: BodyView::Json(JsonView::Success(redirect)),
    }
}

/// The reply that an error ends a request in.
pub open spec fn error_reply_view(e: AppErrorView) -> ReplyView {
    text_view(e.status, e.message)
}

/// The cookie that carries a session token: `auth_token`, for the whole
/// site, `SameSite=Lax`, hidden from scripts, kept for the browser session.
pub fn create_auth_cookie(token: &str) -> (r: CookieSpec)
    ensures
        r@ == auth_cookie_view(token@),
{
    CookieSpec {
        name: owned("auth_token"),
        value: owned(token),
        path: owned("/"),
        same_site: Some(SameSite::Lax),
        http_only: true,
        max_age_seconds: None,
    }
}

/// The cookie that carries a temporary OAuth token: `temp_auth`, for the
/// whole site, `SameSite=Lax`, hidden from scripts, kept ten minutes.
pub fn create_temp_auth_cookie(token: &str) -> (r: CookieSpec)
    ensures
        r@ == temp_auth_cookie_view(token@),
{
    CookieSpec {
        name: owned("temp_auth"),
        value: owned(token),
        path: owned("/"),
        same_site: Some(SameSite::Lax),
        http_only: true,
        max_age_seconds: Some(600),
    }
}

/// The cookie that clears the session cookie: an empty `auth_token` that
/// expires at once.
pub fn create_logout_cookie() -> (r: CookieSpec)
    ensures
        r@ == logout_cookie_view(),
{
    CookieSpec {
        name: owned("auth_token"),
        value: String::new(),
        path: owned("/"),
        same_site: None,
        http_only: true,
        max_age_seconds: Some(0),
    }
}

/// The cookie that clears the temporary OAuth cookie: an empty `temp_auth`
/// that expires at once.
pub fn create_temp_auth_removal_cookie() -> (r: CookieSpec)
    ensures
        r@ == temp_auth_removal_cookie_view(),
{
    CookieSpec {
        name: owned("temp_auth"),
        value: String::new(),
        path: owned("/"),
        same_site: None,
        http_only: true,
        max_age_seconds: Some(0),
    }
}

/// A `303 See Other` reply to `location` that sets `cookies`.
pub fn see_other(location: &str, cookies: Vec<CookieSpec>) -> (r: Reply)
    ensures
        r@ == see_other_view(location@, cookie_views(cookies@)),
{
    Reply { status: STATUS_SEE_OTHER, location: Some(owned(location)), cookies, body: Body::Empty }
}

/// A plain-text reply.
pub fn text_reply(status: u16, body: String) -> (r: Reply)
    ensures
        r@ == text_view(status, body@),
{
    let r = Reply { status, location: None, cookies: Vec::new(), body: Body::Text(body) };
    assert(cookie_views(r.cookies@) =~= Seq::empty());
    r
}

/// A JSON reply `{"success": false, "error": error}`.
pub fn json_failure(status: u16, error: String) -> (r: Reply)
    ensures
        r@ == json_failure_view(status, error@),
{
    let r = Reply {
        status,
        location: None,
        cookies: Vec::new(),
        body: Body::Json(JsonReply::Failure { error }),
    };
    assert(cookie_views(r.cookies@) =~= Seq::empty());
    r
}

/// A `200 OK` JSON reply `{"success": true, "redirect": redirect}` that sets `cookies`.
pub fn json_success(redirect: &str, cookies: Vec<CookieSpec>) -> (r: Reply)
    ensures
        r@ == json_success_view(redirect@, cookie_views(cookies@)),
{
    Reply {
        status: STATUS_OK,
        location: None,
        cookies,
        body: Body::Json(JsonReply::Success { redirect: owned(redirect) }),
    }
}

/// The reply to a rendered page: `200 OK` with an HTML body.
pub fn page_reply(html: String) -> (r: Reply)
    ensures
        r@ == (ReplyView {
            status: STATUS_OK,
            location: None,
            cookies: Seq::empty(),
            body: BodyView::Html(html@),
        }),
{
    let r = Reply { status: STATUS_OK, location: None, cookies: Vec::new(), body: Body::Html(html) };
    assert(cookie_views(r.cookies@) =~= Seq::empty());
    r
}

/// The reply to a log-out: clear the session cookie and go to the front page.
pub fn logout() -> (r: Reply)
    ensures
        r@ == see_other_view("/"@, seq![logout_cookie_view()]),
{
    let mut cookies: Vec<CookieSpec> = Vec::new();
    cookies.push(create_logout_cookie());
    let r = see_other("/", cookies);
    assert(cookie_views(cookies@) =~= seq![logout_cookie_view()]);
    r
}

/// The reply that opens a session with a redirect: `303` to the dashboard,
/// setting the session cookie.
pub fn session_redirect(token: &str) -> (r: Reply)
    ensures
        r@ == see_other_view("/dashboard"@, seq![auth_cookie_view(token@)]),
{
    let mut cookies: Vec<CookieSpec> = Vec::new();
    cookies.push(create_auth_cookie(token));
    assert(cookie_views(cookies@) =~= seq![auth_cookie_view(token@)]);
    see_other("/dashboard", cookies)
}

/// The reply that opens a session for a form sent by script: JSON success
/// that sends the client to the dashboard, setting the session cookie.
pub fn session_json(token: &str) -> (r: Reply)
    ensures
        r@ == json_success_view("/dashboard"@, seq![auth_cookie_view(token@)]),
{
    let mut cookies: Vec<CookieSpec> = Vec::new();
    cookies.push(create_auth_cookie(token));
    assert(cookie_views(cookies@) =~= seq![auth_cookie_view(token@)]);
    json_success("/dashboard", cookies)
}

/// The reply that sends a new OAuth user to pick a username: `303` to the
/// username page, setting the temporary cookie.
pub fn username_setup_redirect(temp_token: &str) -> (r: Reply)
    ensures
        r@ == see_other_view("/username-setup"@, seq![temp_auth_cookie_view(temp_token@)]),
{
    let mut cookies: Vec<CookieSpec> = Vec::new();
    cookies.push(create_temp_auth_cookie(temp_token));
    assert(cookie_views(cookies@) =~= seq![temp_auth_cookie_view(temp_token@)]);
    see_other("/username-setup", cookies)
}

/// The reply to a finished username setup: JSON success that sends the
/// client to the dashboard, clearing the temporary cookie and then setting
/// the session cookie.
pub fn setup_complete(token: &str) -> (r: Reply)
    ensures
        r@ == json_success_view("/dashboard"@, seq![temp_auth_removal_cookie_view(), auth_cookie_view(token@)]),
{
    let mut cookies: Vec<CookieSpec> = Vec::new();
    cookies.push(create_temp_auth_removal_cookie());
    cookies.push(create_auth_cookie(token));
    assert(cookie_views(cookies@) =~= seq![temp_auth_removal_cookie_view(), auth_cookie_view(token@)]);
    json_success("/dashboard", cookies)
}

impl AppError {
    /// The reply the error ends its request in: its status, with its message
    /// as a plain-text body.
    pub fn to_reply(&self) -> (r: Reply)
        ensures
            r@ == error_reply_view(self@),
    {
        text_reply(self.status, self.message.clone())
    }
}

/// Logging out clears exactly the cookie that a log-in sets: the same name
/// and path, an empty value and a lifetime of zero.
pub proof fn logout_clears_session_cookie(token: Seq<char>)
    ensures
        logout_cookie_view().name == auth_cookie_view(token).name,
        logout_cookie_view().path == auth_cookie_view(token).path,
        logout_cookie_view().value.len() == 0,
        logout_cookie_view().max_age_seconds == Some(0i64),
        temp_auth_removal_cookie_view().name == temp_auth_cookie_view(token).name,
        temp_auth_removal_cookie_view().path == temp_auth_cookie_view(token).path,
        temp_auth_removal_cookie_view().value.len() == 0,
        temp_auth_removal_cookie_view().max_age_seconds == Some(0i64),
{
}

} // verus!
