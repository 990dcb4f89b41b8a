//! What the request flows ask the web layer to do, and what it reports back.
//!
//! Each flow (sign-up, log-in, OAuth callback, username setup) is a state
//! machine: it starts from the request, then is told the outcome of each
//! action it asked for, and answers with its next action, until it finishes
//! with a reply or an error.

use vstd::prelude::*;
use crate::error::{AppError, AppErrorView};
use crate::http::{Reply, ReplyView};
use crate::oauth::{OAuthProfile, Provider};

verus! {

/// An account as the database holds it.
#[derive(Debug)]
pub struct AccountRecord {
    pub id: u128,
    pub email: String,
    pub password_hash: Option<String>,
    pub oauth_provider: Option<String>,
}

/// An account to store.
#[derive(Debug)]
pub struct NewAccount {
    pub id: u128,
    pub email: String,
    pub username: String,
    pub name: Option<String>,
    pub password_hash: Option<String>,
    pub oauth_provider: Option<String>,
    pub oauth_id: Option<String>,
}

/// A failed database write: the SQLSTATE code, when the database gave one,
/// and its message.
#[derive(Debug)]
pub struct DbFailure {
    pub code: Option<String>,
    pub message: String,
}

/// What a flow asks the web layer to do next.
#[derive(Debug)]
pub enum Action {
    /// Look up the account with this e-mail address; answer `AccountFound`.
    LookupEmail(String),
    /// Tell whether this username is taken; answer `UsernameTaken`.
    LookupUsername(String),
    /// Store the account; answer `AccountCreated`.
    CreateAccount(NewAccount),
    /// Trade the provider's code for an access token; answer `CodeExchanged`.
    ExchangeCode { provider: Provider, code: String },
    /// Fetch the user's profile from the provider; answer `ProfileFetched`.
    FetchProfile { provider: Provider, access_token: String },
    /// The request is over: send the reply, or the error's reply.
    Finish(Result<Reply, AppError>),
}

/// The outcome of an action, as the web layer reports it.
#[derive(Debug)]
pub enum Event {
    AccountFound(Option<AccountRecord>),
    UsernameTaken(bool),
    AccountCreated(Result<(), DbFailure>),
    CodeExchanged(Result<String, crate::error::ExternalFailure>),
    ProfileFetched(Result<OAuthProfile, crate::error::ExternalFailure>),
    /// A database lookup failed.
    DatabaseFailed,
}

/// The view of an optional string.
pub open spec fn opt_view(o: Option<String>) -> Option<Seq<char>> {
    match o {
        Some(s) => Some(s@),
        None => None,
    }
}

/// The action ends the request with this reply.
pub open spec fn finishes_with(act: Action, reply: ReplyView) -> bool {
    act matches Action::Finish(Ok(r)) && r@ == reply
}

/// The action ends the request with this error.
pub open spec fn fails_with(act: Action, e: AppErrorView) -> bool {
    act matches Action::Finish(Err(x)) && x@ == e
}

/// The action looks up the account of this e-mail address.
pub open spec fn looks_up_email(act: Action, email: Seq<char>) -> bool {
    act matches Action::LookupEmail(e) && e@ == email
}

/// The action asks whether this username is taken.
pub open spec fn looks_up_username(act: Action, username: Seq<char>) -> bool {
    act matches Action::LookupUsername(u) && u@ == username
}

/// The text of a refusal to reuse a username.
pub open spec fn username_taken_text() -> Seq<char> {
    "Username is already taken. Please choose a different username."@
}

/// The text of a refusal of a wrong e-mail address or password.
pub open spec fn bad_credentials_text() -> Seq<char> {
    "Invalid email or password."@
}

/// A row of the account table, as its uniqueness rules see it.
pub struct AccountRow {
    pub email: Seq<char>,
    pub username: Seq<char>,
    pub has_password: bool,
    pub has_provider: bool,
}

/// The row that storing an account adds.
pub open spec fn row_of(a: NewAccount) -> AccountRow {
    AccountRow {
        email: a.email@,
        username: a.username@,
        has_password: a.password_hash is Some,
        has_provider: a.oauth_provider is Some,
    }
}

/// The rules the account table keeps: no two rows share an e-mail address
/// or a username, and each row has a password or an OAuth provider, not both.
pub open spec fn table_ok(t: Seq<AccountRow>) -> bool {
    &&& forall|i: int, j: int|
        0 <= i < j < t.len() ==> #[trigger] t[i].email != #[trigger] t[j].email && t[i].username
            != t[j].username
    &&& forall|i: int| 0 <= i < t.len() ==> #[trigger] t[i].has_password != t[i].has_provider
}

/// No row of the table has this e-mail address.
pub open spec fn email_free(t: Seq<AccountRow>, email: Seq<char>) -> bool {
    forall|i: int| 0 <= i < t.len() ==> #[trigger] t[i].email != email
}

/// No row of the table has this username.
pub open spec fn username_free(t: Seq<AccountRow>, username: Seq<char>) -> bool {
    forall|i: int| 0 <= i < t.len() ==> #[trigger] t[i].username != username
}

/// No row of the table has this e-mail address or this username.
pub open spec fn free_in(t: Seq<AccountRow>, email: Seq<char>, username: Seq<char>) -> bool {
    forall|i: int| 0 <= i < t.len() ==> #[trigger] t[i].email != email && t[i].username != username
}

/// Adding a row whose e-mail address and username are free, and that has
/// a password or a provider but not both, keeps the table's rules.
pub proof fn adding_a_free_row_keeps_table_ok(t: Seq<AccountRow>, row: AccountRow)
    requires
        table_ok(t),
        free_in(t, row.email, row.username),
        row.has_password != row.has_provider,
    ensures
        table_ok(t.push(row)),
{
    let u = t.push(row);
    assert forall|i: int, j: int| 0 <= i < j < u.len() implies #[trigger] u[i].email != #[trigger] u[j].email
        && u[i].username != u[j].username by {
        if j == t.len() {
            assert(u[j] == row);
            assert(u[i] == t[i]);
            assert(t[i].email != row.email && t[i].username != row.username);
        } else {
            assert(u[i] == t[i] && u[j] == t[j]);
            assert(0 <= i < j < t.len());
            let ei = t[i].email;
            let ej = t[j].email;
            assert(ei != ej);
        }
    }
    assert forall|i: int| 0 <= i < u.len() implies #[trigger] u[i].has_password != u[i].has_provider by {
        if i < t.len() {
            assert(u[i] == t[i]);
        }
    }
}

} // verus!
