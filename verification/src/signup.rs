//! The sign-up flow: a visitor creates an account with a password.

use vstd::prelude::*;
use crate::error::{
    AppError, ExternalFailure, STATUS_BAD_REQUEST, database_error_view, failure_error,
    ExternalFailureView,
};
use crate::flow::{
    opt_view, AccountRow, Action, Event, NewAccount, adding_a_free_row_keeps_table_ok, email_free,
    fails_with, finishes_with, looks_up_email, looks_up_username, row_of, table_ok, username_free,
    username_taken_text,
};
use crate::http::{
    auth_cookie_view, see_other_view, session_redirect, text_reply, text_view,
};
use crate::password::{HashAttempt, bcrypt_verdict, hash_attempt, hash_prefix};
use crate::text::{join_str, owned};
use crate::tokens::{TokenContext, create_jwt_token, session_token};
use crate::validation::{SignupRequest, issue_values, signup_issues, signup_rejection_text};

verus! {

/// Where a sign-up stands.
#[derive(Clone, Copy, Debug)]
pub enum SignupStage {
    /// Waiting to learn whether the e-mail address is in use.
    AwaitEmail,
    /// Waiting to learn whether the username is taken.
    AwaitUsername,
    /// Waiting for the new account to be stored.
    AwaitInsert,
    /// Finished.
    Done,
}

/// A sign-up in progress.
#[derive(Debug)]
pub struct SignupFlow {
    pub form: SignupRequest,
    pub stage: SignupStage,
    /// The identifier the new account is given.
    pub user_id: u128,
    /// The secret and time that the session token is made with.
    pub ctx: TokenContext,
    /// The attempt at hashing the password, once it has been made.
    pub hashing: Option<HashAttempt>,
}

/// The events a sign-up waits for at each stage.
pub open spec fn signup_expects(stage: SignupStage, ev: Event) -> bool {
    match stage {
        SignupStage::AwaitEmail => ev is AccountFound || ev is DatabaseFailed,
        SignupStage::AwaitUsername => ev is UsernameTaken || ev is DatabaseFailed,
        SignupStage::AwaitInsert => ev is AccountCreated,
        SignupStage::Done => false,
    }
}

/// The refusal of an address that an OAuth account already holds.
pub open spec fn linked_email_text(provider: Seq<char>) -> Seq<char> {
    "This email is already linked with a "@ + provider + " account. Please log in using "@
        + provider + "."@
}

/// The refusal of an address that a password account already holds.
pub open spec fn email_exists_text() -> Seq<char> {
    "User with this email already exists"@
}

/// The account that a sign-up stores: the form's fields, a bcrypt hash of
/// its password (60 characters, `$2b$12$...`), no OAuth link.
pub open spec fn signup_account(a: NewAccount, form: SignupRequest, id: u128) -> bool {
    &&& a.id == id
    &&& a.email@ == form.email@
    &&& a.username@ == form.username@
    &&& a.name matches Some(n) && n@ == form.name@
    &&& a.password_hash matches Some(h) && (bcrypt_verdict(form.password@, h@) matches Ok(true))
        && h@.len() == 60 && h@.subrange(0, 7) == hash_prefix()
    &&& a.oauth_provider is None
    &&& a.oauth_id is None
}

/// What a sign-up does once the password has been hashed (or has failed to
/// be).
pub open spec fn signup_hashed(
    pre: SignupFlow,
    hashed: Result<String, ExternalFailure>,
    post: SignupFlow,
    act: Action,
) -> bool {
    &&& post.form == pre.form
    &&& post.user_id == pre.user_id
    &&& post.ctx == pre.ctx
    &&& post.hashing == pre.hashing
    &&& match hashed {
        Err(f) => post.stage == SignupStage::Done && fails_with(act, failure_error(f@)),
        Ok(h) => post.stage == SignupStage::AwaitInsert && (act matches Action::CreateAccount(a)
            && a.id == pre.user_id && a.email@ == pre.form.email@ && a.username@
            == pre.form.username@ && opt_view(a.name) == Some(pre.form.name@) && opt_view(
            a.password_hash,
        ) == Some(h@) && a.oauth_provider is None && a.oauth_id is None),
    }
}

/// How a sign-up begins: a form that breaks a rule is refused with `400`
/// and the list of broken rules; otherwise the e-mail address is looked up.
pub open spec fn signup_begins(
    form: SignupRequest,
    user_id: u128,
    ctx: TokenContext,
    flow: SignupFlow,
    act: Action,
) -> bool {
    let issues = signup_issues(form.email@, form.username@, form.password@, form.name@);
    &&& flow.form == form
    &&& flow.user_id == user_id
    &&& flow.ctx == ctx
    &&& flow.hashing is None
    &&& if issues.len() > 0 {
        flow.stage == SignupStage::Done && finishes_with(
            act,
            text_view(
                STATUS_BAD_REQUEST,
                signup_rejection_text(issues, issue_values(issues, form.email@, form.username@, form.password@, form.name@)),
            ),
        )
    } else {
        flow.stage == SignupStage::AwaitEmail && looks_up_email(act, form.email@)
    }
}

/// One step of a sign-up.
pub open spec fn signup_step(pre: SignupFlow, ev: Event, post: SignupFlow, act: Action) -> bool {
    &&& signup_expects(pre.stage, ev)
    &&& post.form == pre.form
    &&& post.user_id == pre.user_id
    &&& post.ctx == pre.ctx
    &&& match ev {
        Event::UsernameTaken(false) => true,
        _ => post.hashing == pre.hashing,
    }
    &&& match ev {
        Event::DatabaseFailed => post.stage == SignupStage::Done && fails_with(act, database_error_view()),
        Event::AccountFound(Some(acc)) => post.stage == SignupStage::Done && finishes_with(
            act,
            text_view(
                STATUS_BAD_REQUEST,
                match acc.oauth_provider {
                    Some(p) => linked_email_text(p@),
                    None => email_exists_text(),
                },
            ),
        ),
        Event::AccountFound(None) => post.stage == SignupStage::AwaitUsername && looks_up_username(
            act,
            pre.form.username@,
        ),
        Event::UsernameTaken(true) => post.stage == SignupStage::Done && finishes_with(
            act,
            text_view(STATUS_BAD_REQUEST, username_taken_text()),
        ),
        Event::UsernameTaken(false) => post.hashing matches Some(attempt) && attempt.password()
            == pre.form.password@ && match attempt.hash() {
            Some(h) => post.stage == SignupStage::AwaitInsert && (act matches Action::CreateAccount(a)
                && signup_account(a, pre.form, pre.user_id) && opt_view(a.password_hash) == Some(h)),
            None => post.stage == SignupStage::Done && fails_with(
                act,
                failure_error(ExternalFailureView::PasswordHashing),
            ),
        },
        Event::AccountCreated(Ok(_)) => post.stage == SignupStage::Done && finishes_with(
            act,
            see_other_view(
                "/dashboard"@,
                seq![auth_cookie_view(session_token(pre.ctx.secret@, pre.user_id, pre.form.email@, pre.ctx.now))],
            ),
        ),
        Event::AccountCreated(Err(_)) => post.stage == SignupStage::Done && fails_with(
            act,
            database_error_view(),
        ),
        _ => false,
    }
}

fn finish_text(status: u16, body: String) -> (act: Action)
    ensures
        finishes_with(act, text_view(status, body@)),
{
    Action::Finish(Ok(text_reply(status, body)))
}

impl SignupFlow {
    /// Begins a sign-up of a new account that will have the identifier
    /// `user_id`: the form is checked against the rules, then the e-mail
    /// address is looked up.
    pub fn start(form: SignupRequest, user_id: u128, ctx: TokenContext) -> (r: (SignupFlow, Action))
        ensures
            signup_begins(form, user_id, ctx, r.0, r.1),
    {
        match form.validate() {
            Err(errors) => {
                let text = errors.signup_text();
                let act = finish_text(STATUS_BAD_REQUEST, text);
                (SignupFlow { form, stage: SignupStage::Done, user_id, ctx, hashing: None }, act)
            },
            Ok(()) => {
                let act = Action::LookupEmail(form.email.clone());
                (SignupFlow { form, stage: SignupStage::AwaitEmail, user_id, ctx, hashing: None }, act)
            },
        }
    }

    /// Goes on from a free username with the hash of the password: the
    /// account is stored, or a failed hashing ends the request.
    pub fn with_password_hash(&mut self, hashed: Result<String, ExternalFailure>) -> (act: Action)
        requires
            old(self).stage == SignupStage::AwaitUsername,
        ensures
            signup_hashed(*old(self), hashed, *final(self), act),
    {
        match hashed {
            Err(f) => {
                self.stage = SignupStage::Done;
                Action::Finish(Err(f.to_app_error()))
            },
            Ok(hash) => {
                self.stage = SignupStage::AwaitInsert;
                Action::CreateAccount(
                    NewAccount {
                        id: self.user_id,
                        email: self.form.email.clone(),
                        username: self.form.username.clone(),
                        name: Some(self.form.name.clone()),
                        password_hash: Some(hash),
                        oauth_provider: None,
                        oauth_id: None,
                    },
                )
            },
        }
    }

    /// Takes the outcome of the last action and answers with the next one.
    pub fn advance(&mut self, ev: Event) -> (act: Action)
        requires
            signup_expects(old(self).stage, ev),
            old(self).ctx.usable(),
        ensures
            signup_step(*old(self), ev, *final(self), act),
    {
        match ev {
            Event::DatabaseFailed => {
                self.stage = SignupStage::Done;
                Action::Finish(Err(AppError::database_failure()))
            },
            Event::AccountFound(Some(acc)) => {
                self.stage = SignupStage::Done;
                match acc.oauth_provider {
                    Some(p) => {
                        let mut m = join_str("This email is already linked with a ", p.as_str());
                        m.append(" account. Please log in using ");
                        m.append(p.as_str());
                        m.append(".");
                        finish_text(STATUS_BAD_REQUEST, m)
                    },
                    None => finish_text(
                        STATUS_BAD_REQUEST,
                        owned("User with this email already exists"),
                    ),
                }
            },
            Event::AccountFound(None) => {
                self.stage = SignupStage::AwaitUsername;
                Action::LookupUsername(self.form.username.clone())
            },
            Event::UsernameTaken(taken) => {
                if taken {
                    self.stage = SignupStage::Done;
                    finish_text(
                        STATUS_BAD_REQUEST,
                        owned("Username is already taken. Please choose a different username."),
                    )
                } else {
                    let attempt = hash_attempt(self.form.password.as_str());
                    let hashed = attempt.result();
                    self.hashing = Some(attempt);
                    self.with_password_hash(hashed)
                }
            },
            Event::AccountCreated(outcome) => {
                self.stage = SignupStage::Done;
                match outcome {
                    Ok(()) => {
                        match create_jwt_token(
                            self.ctx.secret.as_str(),
                            self.user_id,
                            self.form.email.as_str(),
                            self.ctx.now,
                        ) {
                            Ok(t) => Action::Finish(Ok(session_redirect(t.as_str()))),
                            Err(e) => Action::Finish(Err(e)),
                        }
                    },
                    Err(_) => Action::Finish(Err(AppError::database_failure())),
                }
            },
            _ => {
                proof {
                    assert(false);
                }
                Action::Finish(Err(AppError::database_failure()))
            },
        }
    }
}

/// A sign-up stores an account only after it has learnt that the e-mail
/// address is free and then that the username is free; a refused sign-up
/// stores nothing.
pub proof fn signup_stores_only_fresh_accounts(
    pre: SignupFlow,
    ev: Event,
    post: SignupFlow,
    act: Action,
)
    requires
        signup_step(pre, ev, post, act),
    ensures
        act is CreateAccount ==> pre.stage == SignupStage::AwaitUsername && ev == Event::UsernameTaken(
            false,
        ),
        post.stage == SignupStage::AwaitUsername ==> pre.stage == SignupStage::AwaitEmail && ev
            matches Event::AccountFound(None),
        ev matches Event::AccountFound(Some(_)) ==> post.stage == SignupStage::Done && act is Finish,
        ev == Event::UsernameTaken(true) ==> post.stage == SignupStage::Done && act is Finish,
{
}

/// The row a sign-up adds to the account table: the form's address and
/// username, a password and no provider.
pub open spec fn signup_row(flow: SignupFlow) -> AccountRow {
    AccountRow {
        email: flow.form.email@,
        username: flow.form.username@,
        has_password: true,
        has_provider: false,
    }
}

/// What a sign-up has learnt of the account table at each stage.
pub open spec fn signup_knows(flow: SignupFlow, t: Seq<AccountRow>) -> bool {
    match flow.stage {
        SignupStage::AwaitUsername => email_free(t, flow.form.email@),
        SignupStage::AwaitInsert => email_free(t, flow.form.email@) && username_free(
            t,
            flow.form.username@,
        ),
        _ => true,
    }
}

/// The database's answer to a sign-up's lookup is true of the table.
pub open spec fn signup_answer_true(flow: SignupFlow, ev: Event, t: Seq<AccountRow>) -> bool {
    match ev {
        Event::AccountFound(found) => (found is None) == email_free(t, flow.form.email@),
        Event::UsernameTaken(taken) => taken == !username_free(t, flow.form.username@),
        _ => true,
    }
}

/// The account table after a sign-up's step: the store that the step learns
/// has succeeded added the sign-up's row; nothing else writes.
pub open spec fn signup_table_after(pre: SignupFlow, ev: Event, t: Seq<AccountRow>) -> Seq<AccountRow> {
    if pre.stage == SignupStage::AwaitInsert && ev matches Event::AccountCreated(Ok(_)) {
        t.push(signup_row(pre))
    } else {
        t
    }
}

/// A sign-up begins knowing nothing of the table that it could be wrong
/// about.
pub proof fn signup_begins_knowing_nothing(
    form: SignupRequest,
    user_id: u128,
    ctx: TokenContext,
    flow: SignupFlow,
    act: Action,
    t: Seq<AccountRow>,
)
    requires
        signup_begins(form, user_id, ctx, flow, act),
    ensures
        signup_knows(flow, t),
{
}

/// Over a whole sign-up the account table keeps its rules. Where the table
/// keeps them, the database answers the sign-up's lookups truthfully and no
/// one else writes, every step leaves the table keeping them, keeps what the
/// sign-up knows of it true, and either leaves the table as it was or, once
/// only, as the step that ends the sign-up, adds the sign-up's row (a
/// password, no provider). With `signup_begins_knowing_nothing`, this covers
/// every run.
pub proof fn signup_run_keeps_accounts_unique(
    pre: SignupFlow,
    ev: Event,
    post: SignupFlow,
    act: Action,
    t: Seq<AccountRow>,
)
    requires
        table_ok(t),
        signup_knows(pre, t),
        signup_answer_true(pre, ev, t),
        signup_step(pre, ev, post, act),
    ensures
        table_ok(signup_table_after(pre, ev, t)),
        signup_knows(post, signup_table_after(pre, ev, t)),
        signup_table_after(pre, ev, t) == t || (signup_table_after(pre, ev, t) == t.push(signup_row(pre))
            && post.stage == SignupStage::Done),
        act matches Action::CreateAccount(a) ==> row_of(a) == signup_row(pre),
{
    if pre.stage == SignupStage::AwaitInsert && ev matches Event::AccountCreated(Ok(_)) {
        adding_a_free_row_keeps_table_ok(t, signup_row(pre));
    }
}

/// A sign-up never stores the typed password as it is: the stored hash is
/// 60 characters beginning `$2b$12$`, so it differs from every password that
/// is not itself such a text.
pub proof fn signup_never_stores_the_password(pre: SignupFlow, ev: Event, post: SignupFlow, act: Action)
    requires
        signup_step(pre, ev, post, act),
        !(pre.form.password@.len() == 60 && pre.form.password@.subrange(0, 7) == hash_prefix()),
    ensures
        act matches Action::CreateAccount(a) ==> (a.password_hash matches Some(h) && h@ != pre.form.password@),
{
}

/// With the address and the username both free, a sign-up stores its
/// account, under a bcrypt hash of the typed password, unless bcrypt itself
/// failed to hash that password: the flow keeps the attempt it made, and it
/// ends without storing only when that attempt holds no hash.
pub proof fn signup_stores_unless_bcrypt_fails(pre: SignupFlow, post: SignupFlow, act: Action)
    requires
        signup_step(pre, Event::UsernameTaken(false), post, act),
    ensures
        post.hashing matches Some(a) && a.password() == pre.form.password@,
        (act is CreateAccount) || (post.hashing matches Some(a) && a.hash() is None),
        (post.hashing matches Some(a) && a.hash() is Some) ==> act is CreateAccount,
        act matches Action::CreateAccount(acc) ==> acc.id == pre.user_id && acc.email@ == pre.form.email@
            && acc.username@ == pre.form.username@ && acc.oauth_provider is None && (
        acc.password_hash matches Some(h) && (bcrypt_verdict(pre.form.password@, h@) matches Ok(true))),
        !(act is CreateAccount) ==> post.stage == SignupStage::Done && fails_with(
            act,
            failure_error(ExternalFailureView::PasswordHashing),
        ),
{
}

/// A sign-up is over exactly when it finishes: every step that ends the
/// request leaves it done, and every other step leaves it waiting.
pub proof fn signup_ends_exactly_when_done(pre: SignupFlow, ev: Event, post: SignupFlow, act: Action)
    requires
        signup_step(pre, ev, post, act),
    ensures
        (act is Finish) == (post.stage == SignupStage::Done),
{
}

} // verus!
