//! The log-in flow: a visitor signs in with e-mail address and password.

use vstd::prelude::*;
use crate::error::{
    AppError, ExternalFailure, ExternalFailureView, STATUS_BAD_REQUEST,
    STATUS_UNAUTHORIZED, database_error_view, failure_error,
};
use crate::signup::{SignupFlow, signup_step};
use crate::flow::{
    opt_view, AccountRecord, Action, Event, bad_credentials_text, fails_with, finishes_with,
    looks_up_email,
};
use crate::http::{
    auth_cookie_view, json_failure, json_failure_view, json_success_view, session_json,
};
use crate::password::{bcrypt_verdict, check_password};
use crate::text::{join_str, owned};
use crate::tokens::{TokenContext, create_jwt_token, session_token};
use crate::validation::{LoginRequest, form_rejection_text, issue_values, login_issues};

verus! {

/// Where a log-in stands.
#[derive(Clone, Copy, Debug)]
pub enum LoginStage {
    /// Waiting for the account of the e-mail address.
    AwaitAccount,
    /// Finished.
    Done,
}

/// A log-in in progress.
#[derive(Debug)]
pub struct LoginFlow {
    pub form: LoginRequest,
    pub stage: LoginStage,
    /// The secret and time that the session token is made with.
    pub ctx: TokenContext,
}

/// The events a log-in waits for at each stage.
pub open spec fn login_expects(stage: LoginStage, ev: Event) -> bool {
    match stage {
        LoginStage::AwaitAccount => ev is AccountFound || ev is DatabaseFailed,
        LoginStage::Done => false,
    }
}

/// The refusal of a password log-in to an OAuth account.
pub open spec fn oauth_account_text(provider: Seq<char>) -> Seq<char> {
    "This account is registered with "@ + provider + ". Please use the 'Continue with "@ + provider
        + "' button instead."@
}

/// How a log-in begins: a form that breaks a rule is refused with `400`;
/// otherwise the account of the e-mail address is looked up.
pub open spec fn login_begins(form: LoginRequest, ctx: TokenContext, flow: LoginFlow, act: Action) -> bool {
    let issues = login_issues(form.email@, form.password@);
    &&& flow.form == form
    &&& flow.ctx == ctx
    &&& if issues.len() > 0 {
        flow.stage == LoginStage::Done && finishes_with(
            act,
            json_failure_view(
                STATUS_BAD_REQUEST,
                form_rejection_text(issues, issue_values(issues, form.email@, Seq::empty(), form.password@, Seq::empty())),
            ),
        )
    } else {
        flow.stage == LoginStage::AwaitAccount && looks_up_email(act, form.email@)
    }
}

/// What a log-in does with the account it found for `password`: a right
/// password opens a session, made with `ctx`, for the account.
pub open spec fn login_with_account(
    password: Seq<char>,
    ctx: TokenContext,
    acc: AccountRecord,
    post: LoginFlow,
    act: Action,
) -> bool {
    match acc.oauth_provider {
        Some(p) => post.stage == LoginStage::Done && finishes_with(
            act,
            json_failure_view(STATUS_BAD_REQUEST, oauth_account_text(p@)),
        ),
        None => match acc.password_hash {
            None => post.stage == LoginStage::Done && fails_with(
                act,
                failure_error(ExternalFailureView::InvalidAccount),
            ),
            Some(h) => post.stage == LoginStage::Done && match bcrypt_verdict(password, h@) {
                Err(d) => fails_with(act, failure_error(ExternalFailureView::PasswordVerification(d))),
                Ok(false) => finishes_with(
                    act,
                    json_failure_view(STATUS_UNAUTHORIZED, bad_credentials_text()),
                ),
                Ok(true) => finishes_with(
                    act,
                    json_success_view(
                        "/dashboard"@,
                        seq![auth_cookie_view(session_token(ctx.secret@, acc.id, acc.email@, ctx.now))],
                    ),
                ),
            },
        },
    }
}

/// One step of a log-in.
pub open spec fn login_step(pre: LoginFlow, ev: Event, post: LoginFlow, act: Action) -> bool {
    &&& login_expects(pre.stage, ev)
    &&& post.form == pre.form
    &&& post.ctx == pre.ctx
    &&& match ev {
        Event::DatabaseFailed => post.stage == LoginStage::Done && fails_with(act, database_error_view()),
        Event::AccountFound(None) => post.stage == LoginStage::Done && finishes_with(
            act,
            json_failure_view(STATUS_UNAUTHORIZED, bad_credentials_text()),
        ),
        Event::AccountFound(Some(acc)) => login_with_account(pre.form.password@, pre.ctx, acc, post, act),
        _ => false,
    }
}

fn finish_json_failure(status: u16, error: String) -> (act: Action)
    ensures
        finishes_with(act, json_failure_view(status, error@)),
{
    Action::Finish(Ok(json_failure(status, error)))
}

impl LoginFlow {
    /// Begins a log-in: the form is checked against the rules, then the
    /// account of the e-mail address is looked up.
    pub fn start(form: LoginRequest, ctx: TokenContext) -> (r: (LoginFlow, Action))
        ensures
            login_begins(form, ctx, r.0, r.1),
    {
        match form.validate() {
            Err(errors) => {
                let act = finish_json_failure(STATUS_BAD_REQUEST, errors.form_text());
                (LoginFlow { form, stage: LoginStage::Done, ctx }, act)
            },
            Ok(()) => {
                let act = Action::LookupEmail(form.email.clone());
                (LoginFlow { form, stage: LoginStage::AwaitAccount, ctx }, act)
            },
        }
    }

    /// Takes the outcome of the last action and answers with the next one.
    pub fn advance(&mut self, ev: Event) -> (act: Action)
        requires
            login_expects(old(self).stage, ev),
            old(self).ctx.usable(),
        ensures
            login_step(*old(self), ev, *final(self), act),
    {
        match ev {
            Event::DatabaseFailed => {
                self.stage = LoginStage::Done;
                Action::Finish(Err(AppError::database_failure()))
            },
            Event::AccountFound(None) => {
                self.stage = LoginStage::Done;
                finish_json_failure(STATUS_UNAUTHORIZED, owned("Invalid email or password."))
            },
            Event::AccountFound(Some(acc)) => {
                self.stage = LoginStage::Done;
                match &acc.oauth_provider {
                    Some(p) => {
                        let mut m = join_str("This account is registered with ", p.as_str());
                        m.append(". Please use the 'Continue with ");
                        m.append(p.as_str());
                        m.append("' button instead.");
                        finish_json_failure(STATUS_BAD_REQUEST, m)
                    },
                    None => match &acc.password_hash {
                        None => Action::Finish(Err(ExternalFailure::InvalidAccount.to_app_error())),
                        Some(h) => match check_password(self.form.password.as_str(), h.as_str()) {
                            Err(f) => Action::Finish(Err(f.to_app_error())),
                            Ok(false) => finish_json_failure(
                                STATUS_UNAUTHORIZED,
                                owned("Invalid email or password."),
                            ),
                            Ok(true) => match create_jwt_token(
                                self.ctx.secret.as_str(),
                                acc.id,
                                acc.email.as_str(),
                                self.ctx.now,
                            ) {
                                Ok(t) => Action::Finish(Ok(session_json(t.as_str()))),
                                Err(e) => Action::Finish(Err(e)),
                            },
                        },
                    },
                }
            },
            _ => {
                proof {
                    assert(false);
                }
                Action::Finish(Err(AppError::database_failure()))
            },
        }
    }
}

/// A log-in does not tell an unknown e-mail address from a wrong password:
/// both get the same `401` reply.
pub proof fn login_hides_unknown_addresses(
    pre1: LoginFlow,
    post1: LoginFlow,
    act1: Action,
    pre2: LoginFlow,
    acc: AccountRecord,
    post2: LoginFlow,
    act2: Action,
)
    requires
        login_step(pre1, Event::AccountFound(None), post1, act1),
        login_step(pre2, Event::AccountFound(Some(acc)), post2, act2),
        acc.oauth_provider is None,
        acc.password_hash matches Some(h) && (bcrypt_verdict(pre2.form.password@, h@) matches Ok(false)),
    ensures
        act1 matches Action::Finish(Ok(r1)) && act2 matches Action::Finish(Ok(r2)) && r1@ == r2@,
{
}

/// An account made through OAuth cannot be entered with a password: whatever
/// password is typed, the log-in is refused and no session is made.
pub proof fn login_refuses_oauth_accounts(
    pre: LoginFlow,
    acc: AccountRecord,
    post: LoginFlow,
    act: Action,
)
    requires
        login_step(pre, Event::AccountFound(Some(acc)), post, act),
        acc.oauth_provider is Some,
    ensures
        post.stage == LoginStage::Done,
        act matches Action::Finish(Ok(r)) && r@.status == STATUS_BAD_REQUEST,
{
}

/// A password chosen at sign-up opens the account that the sign-up stored:
/// a log-in that types the same password, against that account as the
/// database gives it back, is answered with a session for it.
pub proof fn signup_password_opens_login(
    spre: SignupFlow,
    spost: SignupFlow,
    sact: Action,
    lpre: LoginFlow,
    acc: AccountRecord,
    lpost: LoginFlow,
    lact: Action,
)
    requires
        signup_step(spre, Event::UsernameTaken(false), spost, sact),
        sact matches Action::CreateAccount(a) && acc.id == a.id && acc.email@ == a.email@
            && opt_view(acc.password_hash) == opt_view(a.password_hash) && acc.oauth_provider == a.oauth_provider,
        lpre.form.password@ == spre.form.password@,
        login_step(lpre, Event::AccountFound(Some(acc)), lpost, lact),
    ensures
        lpost.stage == LoginStage::Done,
        finishes_with(
            lact,
            json_success_view(
                "/dashboard"@,
                seq![auth_cookie_view(session_token(lpre.ctx.secret@, acc.id, acc.email@, lpre.ctx.now))],
            ),
        ),
        acc.email@ == spre.form.email@,
{
}

/// A log-in is over exactly when it finishes.
pub proof fn login_ends_exactly_when_done(pre: LoginFlow, ev: Event, post: LoginFlow, act: Action)
    requires
        login_step(pre, ev, post, act),
    ensures
        (act is Finish) == (post.stage == LoginStage::Done),
{
}

} // verus!
