//! The return from Google or GitHub after the visitor has signed in there.

use vstd::prelude::*;
use vstd::utf8::encode_utf8;
use crate::error::{
    AppError, AppErrorView, STATUS_BAD_REQUEST, database_error_view, failure_error,
};
use crate::flow::{Action, Event, fails_with, finishes_with, looks_up_email};
use crate::http::{
    auth_cookie_view, see_other_view, session_redirect, temp_auth_cookie_view, text_reply, text_view,
    username_setup_redirect,
};
use crate::oauth::{IdentityView, OAuthIdentity, Provider, identity_of};
use crate::query::{get_query_param, query_param_outcome};
use crate::text::{join_str, owned};
use crate::tokens::{
    TEMP_LIFETIME_SECS, TokenContext, create_jwt_token, create_temp_oauth_token, session_token,
    temp_claims_in, temp_token,
};

verus! {

/// Where an OAuth callback stands.
#[derive(Clone, Copy, Debug)]
pub enum CallbackStage {
    /// Waiting for the provider's access token.
    AwaitToken,
    /// Waiting for the user's profile.
    AwaitProfile,
    /// Waiting for the account of the profile's e-mail address.
    AwaitAccount,
    /// Finished.
    Done,
}

/// An OAuth callback in progress.
#[derive(Debug)]
pub struct CallbackFlow {
    pub provider: Provider,
    pub stage: CallbackStage,
    /// Who the provider says the visitor is (known once the profile is in).
    pub identity: OAuthIdentity,
    /// The identifier of the temporary token, should the visitor be new.
    pub temp_id: u128,
    /// The secret and time that tokens are made with.
    pub ctx: TokenContext,
}

/// The events a callback waits for at each stage.
pub open spec fn callback_expects(stage: CallbackStage, ev: Event) -> bool {
    match stage {
        CallbackStage::AwaitToken => ev is CodeExchanged,
        CallbackStage::AwaitProfile => ev is ProfileFetched,
        CallbackStage::AwaitAccount => ev is AccountFound || ev is DatabaseFailed,
        CallbackStage::Done => false,
    }
}

/// Whether Google's code is too short to be one: empty, or under 10 bytes.
pub open spec fn google_code_rejected(code: Seq<char>) -> bool {
    code.len() == 0 || (encode_utf8(code).len() as usize) < 10
}

/// The error of a code that is too short.
pub open spec fn bad_code_error() -> AppErrorView {
    AppErrorView {
        message: "Invalid authorization code received from Google"@,
        status: STATUS_BAD_REQUEST,
    }
}

/// The error of a callback that reports an OAuth error and its description.
pub open spec fn oauth_error(query: Seq<char>, err: Seq<char>) -> AppErrorView {
    let description = match query_param_outcome(query, "error_description"@) {
        Ok(d) => d,
        Err(_) => Seq::empty(),
    };
    AppErrorView { message: "OAuth error: "@ + err + " - "@ + description, status: STATUS_BAD_REQUEST }
}

/// The refusal of an OAuth sign-in to an account that has a password.
pub open spec fn password_account_text() -> Seq<char> {
    "This email is already registered with a password. Please log in using your email and password instead."@
}

/// How a callback begins. The `code` parameter must be present; Google's
/// must also be at least 10 bytes long, and Google's callback must carry no
/// `error` parameter. Then the code is traded for a token.
pub open spec fn callback_begins(
    provider: Provider,
    query: Seq<char>,
    temp_id: u128,
    ctx: TokenContext,
    flow: CallbackFlow,
    act: Action,
) -> bool {
    &&& flow.provider == provider
    &&& flow.temp_id == temp_id
    &&& flow.ctx == ctx
    &&& match query_param_outcome(query, "code"@) {
        Err(e) => flow.stage == CallbackStage::Done && fails_with(act, e),
        Ok(code) => if provider == Provider::Google && google_code_rejected(code) {
            flow.stage == CallbackStage::Done && fails_with(act, bad_code_error())
        } else if provider == Provider::Google && query_param_outcome(query, "error"@) is Ok {
            flow.stage == CallbackStage::Done && fails_with(
                act,
                oauth_error(query, query_param_outcome(query, "error"@)->Ok_0),
            )
        } else {
            flow.stage == CallbackStage::AwaitToken && (act matches Action::ExchangeCode {
                provider: p,
                code: c,
            } && p == provider && c@ == code)
        },
    }
}

/// The temporary token that a callback gives a visitor the database does
/// not know: the provider's identity, under the callback's identifier.
pub open spec fn new_user_token(flow: CallbackFlow) -> Seq<char> {
    temp_token(
        flow.ctx.secret@,
        flow.temp_id,
        flow.identity.email@,
        flow.identity.name@,
        flow.identity.oauth_id@,
        flow.identity.provider@,
        flow.ctx.now,
    )
}

/// One step of a callback.
pub open spec fn callback_step(pre: CallbackFlow, ev: Event, post: CallbackFlow, act: Action) -> bool {
    &&& callback_expects(pre.stage, ev)
    &&& post.provider == pre.provider
    &&& match ev {
        Event::ProfileFetched(Ok(_)) => true,
        _ => post.identity@ == pre.identity@,
    }
    &&& post.temp_id == pre.temp_id
    &&& post.ctx == pre.ctx
    &&& match ev {
        Event::CodeExchanged(Err(f)) => post.stage == CallbackStage::Done && fails_with(
            act,
            failure_error(f@),
        ),
        Event::CodeExchanged(Ok(token)) => post.stage == CallbackStage::AwaitProfile && (
        act matches Action::FetchProfile { provider: p, access_token: t } && p == pre.provider && t@
            == token@),
        Event::ProfileFetched(Err(f)) => post.stage == CallbackStage::Done && fails_with(
            act,
            failure_error(f@),
        ),
        Event::ProfileFetched(Ok(profile)) => post.stage == CallbackStage::AwaitAccount
            && post.identity@ == identity_of(profile) && looks_up_email(
            act,
            identity_of(profile).email,
        ),
        Event::DatabaseFailed => post.stage == CallbackStage::Done && fails_with(
            act,
            database_error_view(),
        ),
        Event::AccountFound(Some(acc)) => match acc.oauth_provider {
            None => post.stage == CallbackStage::Done && finishes_with(
                act,
                text_view(STATUS_BAD_REQUEST, password_account_text()),
            ),
            Some(_) => post.stage == CallbackStage::Done && finishes_with(
                act,
                see_other_view(
                    "/dashboard"@,
                    seq![auth_cookie_view(session_token(pre.ctx.secret@, acc.id, pre.identity.email@, pre.ctx.now))],
                ),
            ),
        },
        Event::AccountFound(None) => post.stage == CallbackStage::Done && finishes_with(
            act,
            see_other_view("/username-setup"@, seq![temp_auth_cookie_view(new_user_token(pre))]),
        ) && temp_claims_in(pre.ctx.secret@, new_user_token(pre)) == Some(
            (
                pre.temp_id,
                pre.identity.email@,
                pre.identity.name@,
                pre.identity.oauth_id@,
                pre.identity.provider@,
                (pre.ctx.now + TEMP_LIFETIME_SECS) as u64,
            ),
        ),
        _ => false,
    }
}

fn empty_identity() -> (r: OAuthIdentity)
    ensures
        r@ == (IdentityView {
            email: Seq::empty(),
            name: Seq::empty(),
            oauth_id: Seq::empty(),
            provider: Seq::empty(),
        }),
{
    OAuthIdentity { email: String::new(), name: String::new(), oauth_id: String::new(), provider: String::new() }
}

impl CallbackFlow {
    /// Begins a callback from `provider` with the request's query string;
    /// `temp_id` identifies the temporary token, should the visitor be new.
    /// The query must name the code to trade; Google's must be long enough
    /// and carry no error.
    pub fn start(provider: Provider, query: &str, temp_id: u128, ctx: TokenContext) -> (r: (
        CallbackFlow,
        Action,
    ))
        ensures
            callback_begins(provider, query@, temp_id, ctx, r.0, r.1),
    {
        let code = match get_query_param(query, "code") {
            Err(e) => {
                let done = CallbackFlow { provider, stage: CallbackStage::Done, identity: empty_identity(), temp_id, ctx };
                return (done, Action::Finish(Err(e)));
            },
            Ok(c) => c,
        };
        let is_google = match provider {
            Provider::Google => true,
            Provider::GitHub => false,
        };
        if is_google {
            if code.as_str().is_empty() || code.as_str().len() < 10 {
                let done = CallbackFlow { provider, stage: CallbackStage::Done, identity: empty_identity(), temp_id, ctx };
                return (
                    done,
                    Action::Finish(
                        Err(AppError::new("Invalid authorization code received from Google", STATUS_BAD_REQUEST)),
                    ),
                );
            }
            match get_query_param(query, "error") {
                Ok(err) => {
                    let description = match get_query_param(query, "error_description") {
                        Ok(d) => d,
                        Err(_) => String::new(),
                    };
                    let mut m = join_str("OAuth error: ", err.as_str());
                    m.append(" - ");
                    m.append(description.as_str());
                    let done = CallbackFlow { provider, stage: CallbackStage::Done, identity: empty_identity(), temp_id, ctx };
                    return (done, Action::Finish(Err(AppError { message: m, status: STATUS_BAD_REQUEST })));
                },
                Err(_) => {},
            }
        }
        let flow = CallbackFlow {
            provider,
            stage: CallbackStage::AwaitToken,
            identity: empty_identity(),
            temp_id,
            ctx,
        };
        (flow, Action::ExchangeCode { provider, code })
    }

    /// Takes the outcome of the last action and answers with the next one.
    pub fn advance(&mut self, ev: Event) -> (act: Action)
        requires
            callback_expects(old(self).stage, ev),
            old(self).ctx.usable(),
        ensures
            callback_step(*old(self), ev, *final(self), act),
    {
        match ev {
            Event::CodeExchanged(outcome) => match outcome {
                Err(f) => {
                    self.stage = CallbackStage::Done;
                    Action::Finish(Err(f.to_app_error()))
                },
                Ok(token) => {
                    self.stage = CallbackStage::AwaitProfile;
                    Action::FetchProfile { provider: self.provider, access_token: token }
                },
            },
            Event::ProfileFetched(outcome) => match outcome {
                Err(f) => {
                    self.stage = CallbackStage::Done;
                    Action::Finish(Err(f.to_app_error()))
                },
                Ok(profile) => {
                    let identity = profile.identity();
                    let email = identity.email.clone();
                    self.identity = identity;
                    self.stage = CallbackStage::AwaitAccount;
                    Action::LookupEmail(email)
                },
            },
            Event::DatabaseFailed => {
                self.stage = CallbackStage::Done;
                Action::Finish(Err(AppError::database_failure()))
            },
            Event::AccountFound(found) => match found {
                Some(acc) => match acc.oauth_provider {
                    None => {
                        self.stage = CallbackStage::Done;
                        Action::Finish(
                            Ok(
                                text_reply(
                                    STATUS_BAD_REQUEST,
                                    owned(
                                        "This email is already registered with a password. Please log in using your email and password instead.",
                                    ),
                                ),
                            ),
                        )
                    },
                    Some(_) => {
                        self.stage = CallbackStage::Done;
                        match create_jwt_token(
                            self.ctx.secret.as_str(),
                            acc.id,
                            self.identity.email.as_str(),
                            self.ctx.now,
                        ) {
                            Ok(t) => Action::Finish(Ok(session_redirect(t.as_str()))),
                            Err(e) => Action::Finish(Err(e)),
                        }
                    },
                },
                None => {
                    self.stage = CallbackStage::Done;
                    match create_temp_oauth_token(
                        self.ctx.secret.as_str(),
                        self.temp_id,
                        self.identity.email.as_str(),
                        self.identity.name.as_str(),
                        self.identity.oauth_id.as_str(),
                        self.identity.provider.as_str(),
                        self.ctx.now,
                    ) {
                        Ok(t) => Action::Finish(Ok(username_setup_redirect(t.as_str()))),
                        Err(e) => Action::Finish(Err(e)),
                    }
                },
            },
            _ => {
                proof {
                    assert(false);
                }
                Action::Finish(Err(AppError::database_failure()))
            },
        }
    }
}

/// An OAuth sign-in never enters an account that was made with a password:
/// an e-mail address held by such an account is refused with `400`, and no
/// token is made.
pub proof fn callback_refuses_password_accounts(
    pre: CallbackFlow,
    acc: crate::flow::AccountRecord,
    post: CallbackFlow,
    act: Action,
)
    requires
        callback_step(pre, Event::AccountFound(Some(acc)), post, act),
        acc.oauth_provider is None,
    ensures
        post.stage == CallbackStage::Done,
        finishes_with(act, text_view(STATUS_BAD_REQUEST, password_account_text())),
{
}

/// A callback stores no account: a visitor the database does not know gets a
/// temporary token that carries the provider's identity, and is sent to pick
/// a username; one it knows through OAuth gets a session for that account,
/// under the address the provider gave.
pub proof fn callback_defers_new_accounts(
    pre: CallbackFlow,
    ev: Event,
    post: CallbackFlow,
    act: Action,
)
    requires
        callback_step(pre, ev, post, act),
    ensures
        !(act is CreateAccount),
        ev matches Event::AccountFound(None) ==> (act matches Action::Finish(Ok(r)) && r@.cookies.len()
            == 1 && r@.cookies[0].name == "temp_auth"@ && temp_claims_in(
            pre.ctx.secret@,
            r@.cookies[0].value,
        ) == Some(
            (
                pre.temp_id,
                pre.identity.email@,
                pre.identity.name@,
                pre.identity.oauth_id@,
                pre.identity.provider@,
                (pre.ctx.now + TEMP_LIFETIME_SECS) as u64,
            ),
        )),
        ev matches Event::AccountFound(Some(acc)) ==> (acc.oauth_provider is Some ==> finishes_with(
            act,
            see_other_view(
                "/dashboard"@,
                seq![auth_cookie_view(session_token(pre.ctx.secret@, acc.id, pre.identity.email@, pre.ctx.now))],
            ),
        )),
{
}

/// A callback is over exactly when it finishes.
pub proof fn callback_ends_exactly_when_done(
    pre: CallbackFlow,
    ev: Event,
    post: CallbackFlow,
    act: Action,
)
    requires
        callback_step(pre, ev, post, act),
    ensures
        (act is Finish) == (post.stage == CallbackStage::Done),
{
}

/// How a callback begins also ends the request exactly when it leaves the flow done.
pub proof fn callback_begins_done_only_when_finished(
    provider: Provider,
    query: Seq<char>,
    temp_id: u128,
    ctx: TokenContext,
    flow: CallbackFlow,
    act: Action,
)
    requires
        callback_begins(provider, query, temp_id, ctx, flow, act),
    ensures
        (act is Finish) == (flow.stage == CallbackStage::Done),
{
}

/// After the code is traded for an access token, the profile is fetched
/// from the provider the callback is for, with that very token.
pub proof fn callback_fetches_from_its_own_provider(
    pre: CallbackFlow,
    token: String,
    post: CallbackFlow,
    act: Action,
)
    requires
        callback_step(pre, Event::CodeExchanged(Ok(token)), post, act),
    ensures
        act matches Action::FetchProfile { provider, access_token } && provider == pre.provider
            && access_token@ == token@,
        post.provider == pre.provider,
        post.stage == CallbackStage::AwaitProfile,
{
}

/// A callback started for a provider trades the code with that provider and
/// then fetches the profile from that same provider.
pub proof fn callback_stays_with_the_provider_it_started_for(
    provider: Provider,
    query: Seq<char>,
    temp_id: u128,
    ctx: TokenContext,
    f0: CallbackFlow,
    a0: Action,
    token: String,
    f1: CallbackFlow,
    a1: Action,
)
    requires
        callback_begins(provider, query, temp_id, ctx, f0, a0),
        callback_step(f0, Event::CodeExchanged(Ok(token)), f1, a1),
    ensures
        a0 matches Action::ExchangeCode { provider: p, .. } && p == provider,
        a1 matches Action::FetchProfile { provider: p, .. } && p == provider,
{
}

} // verus!
