//! The username setup flow: a new OAuth user picks a username, and the
//! account is stored.

use vstd::prelude::*;
use crate::error::{
    AppError, STATUS_BAD_REQUEST, STATUS_UNAUTHORIZED, database_error_view,
};
use crate::flow::{
    opt_view, AccountRecord, AccountRow, Action, DbFailure, Event, NewAccount,
    adding_a_free_row_keeps_table_ok, email_free, fails_with, finishes_with, looks_up_email,
    looks_up_username, row_of, table_ok, username_free, username_taken_text,
};
use crate::http::{
    auth_cookie_view, json_failure, json_failure_view, json_success_view, see_other_view, setup_complete,
    temp_auth_removal_cookie_view,
};
use crate::text::{contains_str, contains_text, lowercase, owned, to_lowercase};
use crate::tokens::{
    EXPIRY_LEEWAY_SECS, TEMP_LIFETIME_SECS, TempOAuthClaims, TokenContext, create_jwt_token,
    decode_temp_oauth_token, live_temp_claims, session_token, temp_claims_view,
};
use crate::validation::{UsernameSetupRequest, form_rejection_text, issue_values, username_issues};
use crate::callback::{CallbackFlow, callback_step};

verus! {

/// Where a username setup stands.
#[derive(Clone, Copy, Debug)]
pub enum SetupStage {
    /// Waiting to learn whether the username is taken.
    AwaitUsername,
    /// Waiting to learn whether the e-mail address has been registered meanwhile.
    AwaitEmail,
    /// Waiting for the new account to be stored.
    AwaitInsert,
    /// Finished.
    Done,
}

/// A username setup in progress.
#[derive(Debug)]
pub struct SetupFlow {
    pub form: UsernameSetupRequest,
    pub stage: SetupStage,
    /// The claims of the temporary token.
    pub claims: TempOAuthClaims,
    /// The identifier the new account is given.
    pub user_id: u128,
    /// The secret and time that tokens are read and made with.
    pub ctx: TokenContext,
}

/// The events a setup waits for at each stage.
pub open spec fn setup_expects(stage: SetupStage, ev: Event) -> bool {
    match stage {
        SetupStage::AwaitUsername => ev is UsernameTaken || ev is DatabaseFailed,
        SetupStage::AwaitEmail => ev is AccountFound || ev is DatabaseFailed,
        SetupStage::AwaitInsert => ev is AccountCreated,
        SetupStage::Done => false,
    }
}

/// The refusal of a setup without a temporary token.
pub open spec fn no_temp_auth_text() -> Seq<char> {
    "No temporary authentication found. Please try logging in again."@
}

/// The refusal of an invalid or expired temporary token.
pub open spec fn expired_session_text() -> Seq<char> {
    "Invalid or expired session. Please try logging in again."@
}

/// The refusal of an e-mail address that is already registered.
pub open spec fn email_registered_text() -> Seq<char> {
    "This email has already been registered."@
}

/// The refusal of a store that broke a uniqueness rule, read from the
/// database's message: it names the username, else the e-mail address, else
/// neither.
pub open spec fn conflict_text(message: Seq<char>) -> Seq<char> {
    if contains_text(lowercase(message), "username"@) {
        username_taken_text()
    } else if contains_text(lowercase(message), "email"@) {
        email_registered_text()
    } else {
        "This account already exists."@
    }
}

/// Whether a failed store broke a uniqueness rule (SQLSTATE 23505).
pub open spec fn is_unique_violation(f: DbFailure) -> bool {
    f.code matches Some(c) && c@ == "23505"@
}

/// The account that a setup stores: the token's identity and the chosen
/// username, no password.
pub open spec fn setup_account(a: NewAccount, form: UsernameSetupRequest, claims: TempOAuthClaims, id: u128) -> bool {
    &&& a.id == id
    &&& a.email@ == claims.email@
    &&& a.username@ == form.username@
    &&& a.name matches Some(n) && n@ == claims.name@
    &&& a.oauth_provider matches Some(p) && p@ == claims.oauth_provider@
    &&& a.oauth_id matches Some(o) && o@ == claims.oauth_id@
    &&& a.password_hash is None
}

/// How a setup goes on from the outcome of reading the temporary token:
/// a refused token is answered with `401`; otherwise the token's claims are
/// kept and the username is looked up.
pub open spec fn setup_resumes(
    form: UsernameSetupRequest,
    decoded: Option<(u128, Seq<char>, Seq<char>, Seq<char>, Seq<char>, u64)>,
    user_id: u128,
    ctx: TokenContext,
    flow: SetupFlow,
    act: Action,
) -> bool {
    &&& flow.form == form
    &&& flow.user_id == user_id
    &&& flow.ctx == ctx
    &&& match decoded {
        None => flow.stage == SetupStage::Done && finishes_with(
            act,
            json_failure_view(STATUS_UNAUTHORIZED, expired_session_text()),
        ),
        Some(c) => flow.stage == SetupStage::AwaitUsername && temp_claims_view(flow.claims) == c
            && looks_up_username(act, form.username@),
    }
}

/// How a setup begins: a username that breaks a rule is refused with `400`;
/// without a temporary token the visitor is refused with `401`; otherwise the
/// token is read with the secret at the time of the request.
pub open spec fn setup_begins(
    form: UsernameSetupRequest,
    temp_token: Option<Seq<char>>,
    user_id: u128,
    ctx: TokenContext,
    flow: SetupFlow,
    act: Action,
) -> bool {
    let issues = username_issues(form.username@);
    if issues.len() > 0 {
        flow.form == form && flow.stage == SetupStage::Done && finishes_with(
            act,
            json_failure_view(
                STATUS_BAD_REQUEST,
                form_rejection_text(issues, issue_values(issues, Seq::empty(), form.username@, Seq::empty(), Seq::empty())),
            ),
        )
    } else {
        match temp_token {
            None => flow.form == form && flow.stage == SetupStage::Done && finishes_with(
                act,
                json_failure_view(STATUS_UNAUTHORIZED, no_temp_auth_text()),
            ),
            Some(t) => setup_resumes(form, live_temp_claims(ctx.secret@, t, ctx.now), user_id, ctx, flow, act),
        }
    }
}

/// One step of a setup.
pub open spec fn setup_step(pre: SetupFlow, ev: Event, post: SetupFlow, act: Action) -> bool {
    &&& setup_expects(pre.stage, ev)
    &&& post.form == pre.form
    &&& post.claims == pre.claims
    &&& post.user_id == pre.user_id
    &&& post.ctx == pre.ctx
    &&& match ev {
        Event::DatabaseFailed => post.stage == SetupStage::Done && fails_with(
            act,
            database_error_view(),
        ),
        Event::UsernameTaken(true) => post.stage == SetupStage::Done && finishes_with(
            act,
            json_failure_view(STATUS_BAD_REQUEST, username_taken_text()),
        ),
        Event::UsernameTaken(false) => post.stage == SetupStage::AwaitEmail && looks_up_email(
            act,
            pre.claims.email@,
        ),
        Event::AccountFound(Some(_)) => post.stage == SetupStage::Done && finishes_with(
            act,
            json_failure_view(STATUS_BAD_REQUEST, email_registered_text()),
        ),
        Event::AccountFound(None) => post.stage == SetupStage::AwaitInsert && (
        act matches Action::CreateAccount(a) && setup_account(a, pre.form, pre.claims, pre.user_id)),
        Event::AccountCreated(Ok(_)) => post.stage == SetupStage::Done && finishes_with(
            act,
            json_success_view(
                "/dashboard"@,
                seq![
                    temp_auth_removal_cookie_view(),
                    auth_cookie_view(session_token(pre.ctx.secret@, pre.user_id, pre.claims.email@, pre.ctx.now)),
                ],
            ),
        ),
        Event::AccountCreated(Err(f)) => post.stage == SetupStage::Done && if is_unique_violation(
            f,
        ) {
            finishes_with(act, json_failure_view(STATUS_BAD_REQUEST, conflict_text(f.message@)))
        } else {
            fails_with(act, database_error_view())
        },
        _ => false,
    }
}

fn finish_json_failure(status: u16, error: String) -> (act: Action)
    ensures
        finishes_with(act, json_failure_view(status, error@)),
{
    Action::Finish(Ok(json_failure(status, error)))
}

fn empty_claims() -> (c: TempOAuthClaims)
    ensures
        c.sub == 0,
        c.email@ == Seq::<char>::empty(),
        c.name@ == Seq::<char>::empty(),
        c.oauth_id@ == Seq::<char>::empty(),
        c.oauth_provider@ == Seq::<char>::empty(),
        c.exp == 0,
{
    TempOAuthClaims {
        sub: 0,
        email: String::new(),
        name: String::new(),
        oauth_id: String::new(),
        oauth_provider: String::new(),
        exp: 0,
    }
}

/// The refusal text for a store that broke a uniqueness rule.
pub fn conflict_message(message: &str) -> (r: String)
    ensures
        r@ == conflict_text(message@),
{
    let lower = to_lowercase(message);
    if contains_str(lower.as_str(), "username") {
        owned("Username is already taken. Please choose a different username.")
    } else if contains_str(lower.as_str(), "email") {
        owned("This email has already been registered.")
    } else {
        owned("This account already exists.")
    }
}

fn is_unique_code(code: &Option<String>) -> (r: bool)
    ensures
        r == (code matches Some(c) && c@ == "23505"@),
{
    match code {
        Some(c) => {
            let expected = owned("23505");
            *c == expected
        },
        None => false,
    }
}

impl SetupFlow {
    /// Goes on from the outcome of reading the temporary token: the claims
    /// of an accepted token, or the error of a refused one.
    pub fn resume(
        form: UsernameSetupRequest,
        decoded: Result<TempOAuthClaims, AppError>,
        user_id: u128,
        ctx: TokenContext,
    ) -> (r: (SetupFlow, Action))
        ensures
            setup_resumes(
                form,
                match decoded {
                    Ok(c) => Some(temp_claims_view(c)),
                    Err(_) => None,
                },
                user_id,
                ctx,
                r.0,
                r.1,
            ),
    {
        match decoded {
            Err(_) => {
                let act = finish_json_failure(
                    STATUS_UNAUTHORIZED,
                    owned("Invalid or expired session. Please try logging in again."),
                );
                (SetupFlow { form, stage: SetupStage::Done, claims: empty_claims(), user_id, ctx }, act)
            },
            Ok(claims) => {
                let act = Action::LookupUsername(form.username.clone());
                (SetupFlow { form, stage: SetupStage::AwaitUsername, claims, user_id, ctx }, act)
            },
        }
    }

    /// Begins a setup with the posted form and the value of the `temp_auth`
    /// cookie, if the request has one; `user_id` is the identifier the new
    /// account will have.
    pub fn start(form: UsernameSetupRequest, temp_token: Option<String>, user_id: u128, ctx: TokenContext) -> (r: (
        SetupFlow,
        Action,
    ))
        ensures
            setup_begins(form, opt_view(temp_token), user_id, ctx, r.0, r.1),
    {
        match form.validate() {
            Err(errors) => {
                let act = finish_json_failure(STATUS_BAD_REQUEST, errors.form_text());
                (SetupFlow { form, stage: SetupStage::Done, claims: empty_claims(), user_id, ctx }, act)
            },
            Ok(()) => match temp_token {
                None => {
                    let act = finish_json_failure(
                        STATUS_UNAUTHORIZED,
                        owned("No temporary authentication found. Please try logging in again."),
                    );
                    (SetupFlow { form, stage: SetupStage::Done, claims: empty_claims(), user_id, ctx }, act)
                },
                Some(t) => {
                    let decoded = decode_temp_oauth_token(ctx.secret.as_str(), t.as_str(), ctx.now);
                    SetupFlow::resume(form, decoded, user_id, ctx)
                },
            },
        }
    }

    /// Takes the outcome of the last action and answers with the next one.
    pub fn advance(&mut self, ev: Event) -> (act: Action)
        requires
            setup_expects(old(self).stage, ev),
            old(self).ctx.usable(),
        ensures
            setup_step(*old(self), ev, *final(self), act),
    {
        match ev {
            Event::DatabaseFailed => {
                self.stage = SetupStage::Done;
                Action::Finish(Err(AppError::database_failure()))
            },
            Event::UsernameTaken(taken) => {
                if taken {
                    self.stage = SetupStage::Done;
                    finish_json_failure(
                        STATUS_BAD_REQUEST,
                        owned("Username is already taken. Please choose a different username."),
                    )
                } else {
                    self.stage = SetupStage::AwaitEmail;
                    Action::LookupEmail(self.claims.email.clone())
                }
            },
            Event::AccountFound(found) => match found {
                Some(_) => {
                    self.stage = SetupStage::Done;
                    finish_json_failure(
                        STATUS_BAD_REQUEST,
                        owned("This email has already been registered."),
                    )
                },
                None => {
                    self.stage = SetupStage::AwaitInsert;
                    Action::CreateAccount(
                        NewAccount {
                            id: self.user_id,
                            email: self.claims.email.clone(),
                            username: self.form.username.clone(),
                            name: Some(self.claims.name.clone()),
                            password_hash: None,
                            oauth_provider: Some(self.claims.oauth_provider.clone()),
                            oauth_id: Some(self.claims.oauth_id.clone()),
                        },
                    )
                },
            },
            Event::AccountCreated(outcome) => {
                self.stage = SetupStage::Done;
                match outcome {
                    Ok(()) => match create_jwt_token(
                        self.ctx.secret.as_str(),
                        self.user_id,
                        self.claims.email.as_str(),
                        self.ctx.now,
                    ) {
                        Ok(t) => Action::Finish(Ok(setup_complete(t.as_str()))),
                        Err(e) => Action::Finish(Err(e)),
                    },
                    Err(f) => {
                        if is_unique_code(&f.code) {
                            finish_json_failure(STATUS_BAD_REQUEST, conflict_message(f.message.as_str()))
                        } else {
                            Action::Finish(Err(AppError::database_failure()))
                        }
                    },
                }
            },
            _ => {
                proof {
                    assert(false);
                }
                Action::Finish(Err(AppError::database_failure()))
            },
        }
    }
}

/// A setup stores an account only after both the username and the e-mail
/// address were found free; the account carries the identity of the
/// temporary token and no password.
pub proof fn setup_stores_only_verified_identities(
    pre: SetupFlow,
    ev: Event,
    post: SetupFlow,
    act: Action,
)
    requires
        setup_step(pre, ev, post, act),
    ensures
        act is CreateAccount ==> pre.stage == SetupStage::AwaitEmail && ev matches Event::AccountFound(
            None,
        ),
        post.stage == SetupStage::AwaitEmail ==> pre.stage == SetupStage::AwaitUsername && ev
            == Event::UsernameTaken(false),
        act matches Action::CreateAccount(a) ==> setup_account(a, pre.form, pre.claims, pre.user_id),
{
}

/// A setup that succeeds clears the temporary cookie and sets the session
/// cookie, in that order; the session is for the new account and the
/// token's e-mail address.
pub proof fn setup_swaps_cookies(pre: SetupFlow, post: SetupFlow, act: Action)
    requires
        setup_step(pre, Event::AccountCreated(Ok(())), post, act),
    ensures
        act matches Action::Finish(Ok(r)) && r@.cookies.len() == 2 && r@.cookies[0].name
            == "temp_auth"@ && r@.cookies[0].max_age_seconds == Some(0i64) && r@.cookies[1]
            == auth_cookie_view(session_token(pre.ctx.secret@, pre.user_id, pre.claims.email@, pre.ctx.now)),
{
}

/// A username setup is over exactly when it finishes.
pub proof fn setup_ends_exactly_when_done(pre: SetupFlow, ev: Event, post: SetupFlow, act: Action)
    requires
        setup_step(pre, ev, post, act),
    ensures
        (act is Finish) == (post.stage == SetupStage::Done),
{
}

/// The row a setup adds to the account table: the token's address, the
/// chosen username, a provider and no password.
pub open spec fn setup_row(flow: SetupFlow) -> AccountRow {
    AccountRow {
        email: flow.claims.email@,
        username: flow.form.username@,
        has_password: false,
        has_provider: true,
    }
}

/// What a setup has learnt of the account table at each stage.
pub open spec fn setup_knows(flow: SetupFlow, t: Seq<AccountRow>) -> bool {
    match flow.stage {
        SetupStage::AwaitEmail => username_free(t, flow.form.username@),
        SetupStage::AwaitInsert => username_free(t, flow.form.username@) && email_free(
            t,
            flow.claims.email@,
        ),
        _ => true,
    }
}

/// The database's answer to a setup's lookup is true of the table.
pub open spec fn setup_answer_true(flow: SetupFlow, ev: Event, t: Seq<AccountRow>) -> bool {
    match ev {
        Event::UsernameTaken(taken) => taken == !username_free(t, flow.form.username@),
        Event::AccountFound(found) => (found is None) == email_free(t, flow.claims.email@),
        _ => true,
    }
}

/// The account table after a setup's step: the store that the step learns
/// has succeeded added the setup's row; nothing else writes.
pub open spec fn setup_table_after(pre: SetupFlow, ev: Event, t: Seq<AccountRow>) -> Seq<AccountRow> {
    if pre.stage == SetupStage::AwaitInsert && ev matches Event::AccountCreated(Ok(_)) {
        t.push(setup_row(pre))
    } else {
        t
    }
}

/// A setup begins knowing nothing of the table that it could be wrong about.
pub proof fn setup_begins_knowing_nothing(
    form: UsernameSetupRequest,
    temp_token: Option<Seq<char>>,
    user_id: u128,
    ctx: TokenContext,
    flow: SetupFlow,
    act: Action,
    t: Seq<AccountRow>,
)
    requires
        setup_begins(form, temp_token, user_id, ctx, flow, act),
    ensures
        setup_knows(flow, t),
{
}

/// Over a whole setup the account table keeps its rules. Where the table
/// keeps them, the database answers the setup's lookups truthfully and no one
/// else writes, every step leaves the table keeping them, keeps what the
/// setup knows of it true, and either leaves the table as it was or, once
/// only, as the step that ends the setup, adds the setup's row (a provider,
/// no password). With `setup_begins_knowing_nothing`, this covers every run.
pub proof fn setup_run_keeps_accounts_unique(
    pre: SetupFlow,
    ev: Event,
    post: SetupFlow,
    act: Action,
    t: Seq<AccountRow>,
)
    requires
        table_ok(t),
        setup_knows(pre, t),
        setup_answer_true(pre, ev, t),
        setup_step(pre, ev, post, act),
    ensures
        table_ok(setup_table_after(pre, ev, t)),
        setup_knows(post, setup_table_after(pre, ev, t)),
        setup_table_after(pre, ev, t) == t || (setup_table_after(pre, ev, t) == t.push(setup_row(pre))
            && post.stage == SetupStage::Done),
        act matches Action::CreateAccount(a) ==> row_of(a) == setup_row(pre),
{
    if pre.stage == SetupStage::AwaitInsert && ev matches Event::AccountCreated(Ok(_)) {
        adding_a_free_row_keeps_table_ok(t, setup_row(pre));
    }
}

/// The temporary cookie that a callback sets for a visitor the database
/// does not know carries the provider's identity to the username page: read
/// there with the same secret, no later than ten minutes and the leeway after
/// it was made, it gives the callback's identifier and the provider's e-mail
/// address, name, identifier and provider name, and the setup goes on to the
/// username; read later, it is refused with `401`.
pub proof fn temp_cookie_carries_identity_to_setup(
    cpre: CallbackFlow,
    cpost: CallbackFlow,
    cact: Action,
    form: UsernameSetupRequest,
    token: Seq<char>,
    user_id: u128,
    sctx: TokenContext,
    spost: SetupFlow,
    sact: Action,
)
    requires
        cpre.ctx.usable(),
        callback_step(cpre, Event::AccountFound(None), cpost, cact),
        cact matches Action::Finish(Ok(r)) && r@.cookies.len() == 1 && token == r@.cookies[0].value,
        sctx.secret@ == cpre.ctx.secret@,
        username_issues(form.username@).len() == 0,
        setup_begins(form, Some(token), user_id, sctx, spost, sact),
    ensures
        sctx.now <= cpre.ctx.now + TEMP_LIFETIME_SECS + EXPIRY_LEEWAY_SECS ==> {
            &&& spost.stage == SetupStage::AwaitUsername
            &&& spost.claims.sub == cpre.temp_id
            &&& spost.claims.email@ == cpre.identity.email@
            &&& spost.claims.name@ == cpre.identity.name@
            &&& spost.claims.oauth_id@ == cpre.identity.oauth_id@
            &&& spost.claims.oauth_provider@ == cpre.identity.provider@
            &&& looks_up_username(sact, form.username@)
        },
        sctx.now > cpre.ctx.now + TEMP_LIFETIME_SECS + EXPIRY_LEEWAY_SECS ==> spost.stage
            == SetupStage::Done && finishes_with(
            sact,
            json_failure_view(STATUS_UNAUTHORIZED, expired_session_text()),
        ),
{
    assert(token == crate::callback::new_user_token(cpre));
}

/// The identity a provider gives at the callback is the one the account is
/// stored with: a setup begun in time from the callback's temporary cookie,
/// with the same secret, that finds the username and then the address free,
/// stores an account with the provider's address, name, provider name and
/// provider identifier, the chosen username and no password.
pub proof fn provider_identity_reaches_the_account(
    cpre: CallbackFlow,
    cpost: CallbackFlow,
    cact: Action,
    form: UsernameSetupRequest,
    token: Seq<char>,
    user_id: u128,
    sctx: TokenContext,
    s1: SetupFlow,
    a1: Action,
    s2: SetupFlow,
    a2: Action,
    s3: SetupFlow,
    a3: Action,
)
    requires
        cpre.ctx.usable(),
        callback_step(cpre, Event::AccountFound(None), cpost, cact),
        cact matches Action::Finish(Ok(r)) && r@.cookies.len() == 1 && token == r@.cookies[0].value,
        sctx.secret@ == cpre.ctx.secret@,
        sctx.now <= cpre.ctx.now + TEMP_LIFETIME_SECS + EXPIRY_LEEWAY_SECS,
        username_issues(form.username@).len() == 0,
        setup_begins(form, Some(token), user_id, sctx, s1, a1),
        setup_step(s1, Event::UsernameTaken(false), s2, a2),
        setup_step(s2, Event::AccountFound(None), s3, a3),
    ensures
        a3 matches Action::CreateAccount(a) && a.id == user_id && a.email@ == cpre.identity.email@
            && a.username@ == form.username@ && (a.name matches Some(n) && n@ == cpre.identity.name@)
            && (a.oauth_provider matches Some(p) && p@ == cpre.identity.provider@) && (
        a.oauth_id matches Some(o) && o@ == cpre.identity.oauth_id@) && a.password_hash is None,
{
    temp_cookie_carries_identity_to_setup(cpre, cpost, cact, form, token, user_id, sctx, s1, a1);
    assert(s2.claims == s1.claims);
}

/// Signing up through a provider and later signing in through it again
/// opens a session for the account the setup stored: when the second
/// callback gets the same identity from the provider and the database gives
/// back that account, the visitor is sent to the dashboard with a session for
/// the stored identifier and the provider's address, and the account is
/// marked with the provider's name.
pub proof fn oauth_sign_up_then_sign_in(
    cpre: CallbackFlow,
    cpost: CallbackFlow,
    cact: Action,
    form: UsernameSetupRequest,
    token: Seq<char>,
    user_id: u128,
    sctx: TokenContext,
    s1: SetupFlow,
    a1: Action,
    s2: SetupFlow,
    a2: Action,
    s3: SetupFlow,
    a3: Action,
    acc: AccountRecord,
    c2pre: CallbackFlow,
    c2post: CallbackFlow,
    c2act: Action,
)
    requires
        cpre.ctx.usable(),
        callback_step(cpre, Event::AccountFound(None), cpost, cact),
        cact matches Action::Finish(Ok(r)) && r@.cookies.len() == 1 && token == r@.cookies[0].value,
        sctx.secret@ == cpre.ctx.secret@,
        sctx.now <= cpre.ctx.now + TEMP_LIFETIME_SECS + EXPIRY_LEEWAY_SECS,
        username_issues(form.username@).len() == 0,
        setup_begins(form, Some(token), user_id, sctx, s1, a1),
        setup_step(s1, Event::UsernameTaken(false), s2, a2),
        setup_step(s2, Event::AccountFound(None), s3, a3),
        a3 matches Action::CreateAccount(a) && acc.id == a.id && acc.email@ == a.email@ && opt_view(
            acc.oauth_provider,
        ) == opt_view(a.oauth_provider),
        c2pre.identity@ == cpre.identity@,
        callback_step(c2pre, Event::AccountFound(Some(acc)), c2post, c2act),
    ensures
        acc.oauth_provider matches Some(p) && p@ == cpre.identity.provider@,
        finishes_with(
            c2act,
            see_other_view(
                "/dashboard"@,
                seq![auth_cookie_view(session_token(c2pre.ctx.secret@, user_id, cpre.identity.email@, c2pre.ctx.now))],
            ),
        ),
{
    provider_identity_reaches_the_account(
        cpre, cpost, cact, form, token, user_id, sctx, s1, a1, s2, a2, s3, a3,
    );
}

} // verus!
