//! The forms that visitors post, and the rules that their fields must meet.

use vstd::prelude::*;
use validator::{ValidateEmail, ValidateLength};
use crate::query::string_views;
use crate::text::{debug_quoted, decimal, decimal_string, join_str, str_debug};

verus! {

/// Whether the `validator` crate accepts `email` as an e-mail address (HTML5 rules).
pub uninterp spec fn email_accepted(email: Seq<char>) -> bool;

/// `ValidateEmail::validate_email` on a string. Claims that the result is the
/// crate's verdict on the text, and that an accepted address is non-empty and
/// holds an `@` (the crate rejects any other text before it looks further).
#[verifier::external_body]
fn email_is_valid(email: &String) -> (r: bool)
    ensures
        r == email_accepted(email@),
        r ==> email@.len() > 0 && email@.contains('@'),
{
    email.validate_email()
}

/// `ValidateLength::validate_length` on a string with no exact length. Claims
/// what the crate's source does: the number of characters is compared with the
/// bounds that are given.
#[verifier::external_body]
fn length_is_valid(value: &String, min: Option<u64>, max: Option<u64>) -> (r: bool)
    ensures
        r == ((min matches Some(m) ==> value@.len() >= m) && (max matches Some(m) ==> value@.len()
            <= m)),
{
    value.validate_length(min, max, None)
}

/// The form of the sign-up page.
#[derive(Debug)]
pub struct SignupRequest {
    pub email: String,
    pub username: String,
    pub password: String,
    pub name: String,
}

/// The form in which a new OAuth user picks a username.
#[derive(Debug)]
pub struct UsernameSetupRequest {
    pub username: String,
}

/// The form of the log-in page.
#[derive(Debug)]
pub struct LoginRequest {
    pub email: String,
    pub password: String,
}

/// A field of a form.
#[derive(Clone, Copy, Debug)]
pub enum Field {
    Email,
    Username,
    Password,
    Name,
}

/// A rule that a field can break.
#[derive(Clone, Copy, Debug)]
pub enum Rule {
    /// The field must be an e-mail address.
    Email,
    /// The field must have at least `min` characters, and at most `max`
    /// where that is given.
    Length { min: u64, max: Option<u64> },
}

/// A rule that a field of a posted form breaks.
#[derive(Clone, Copy, Debug)]
pub struct FieldIssue {
    pub field: Field,
    pub rule: Rule,
}

/// All the rules that a posted form breaks, in the order of its fields,
/// each with the value that broke it.
#[derive(Debug)]
pub struct ValidationErrors {
    pub issues: Vec<FieldIssue>,
    pub values: Vec<String>,
}

/// A username has 3 to 30 characters.
pub open spec fn username_ok(username: Seq<char>) -> bool {
    3 <= username.len() <= 30
}

/// A new password has at least 8 characters.
pub open spec fn new_password_ok(password: Seq<char>) -> bool {
    password.len() >= 8
}

/// A name, or a password typed to log in, is not empty.
pub open spec fn not_empty(text: Seq<char>) -> bool {
    text.len() >= 1
}

/// The length rule of a username.
pub open spec fn username_rule() -> Rule {
    Rule::Length { min: 3, max: Some(30) }
}

/// The length rule of a new password.
pub open spec fn new_password_rule() -> Rule {
    Rule::Length { min: 8, max: None }
}

/// The length rule of a field that must not be empty.
pub open spec fn not_empty_rule() -> Rule {
    Rule::Length { min: 1, max: None }
}

/// The value of a field, given the values of all fields.
pub open spec fn field_value(f: Field, email: Seq<char>, username: Seq<char>, password: Seq<char>, name: Seq<char>) -> Seq<char> {
    match f {
        Field::Email => email,
        Field::Username => username,
        Field::Password => password,
        Field::Name => name,
    }
}

/// The values of the fields that the issues name, in order.
pub open spec fn issue_values(
    issues: Seq<FieldIssue>,
    email: Seq<char>,
    username: Seq<char>,
    password: Seq<char>,
    name: Seq<char>,
) -> Seq<Seq<char>> {
    issues.map_values(|i: FieldIssue| field_value(i.field, email, username, password, name))
}

/// `issue` when `broken`, else nothing.
pub open spec fn issue_if(broken: bool, issue: FieldIssue) -> Seq<FieldIssue> {
    if broken {
        seq![issue]
    } else {
        Seq::empty()
    }
}

/// The rules that a sign-up form breaks.
pub open spec fn signup_issues(
    email: Seq<char>,
    username: Seq<char>,
    password: Seq<char>,
    name: Seq<char>,
) -> Seq<FieldIssue> {
    issue_if(!email_accepted(email), FieldIssue { field: Field::Email, rule: Rule::Email })
        + issue_if(!username_ok(username), FieldIssue { field: Field::Username, rule: username_rule() })
        + issue_if(!new_password_ok(password), FieldIssue { field: Field::Password, rule: new_password_rule() })
        + issue_if(!not_empty(name), FieldIssue { field: Field::Name, rule: not_empty_rule() })
}

/// The rules that a log-in form breaks.
pub open spec fn login_issues(email: Seq<char>, password: Seq<char>) -> Seq<FieldIssue> {
    issue_if(!email_accepted(email), FieldIssue { field: Field::Email, rule: Rule::Email })
        + issue_if(!not_empty(password), FieldIssue { field: Field::Password, rule: not_empty_rule() })
}

/// The rules that a username form breaks.
pub open spec fn username_issues(username: Seq<char>) -> Seq<FieldIssue> {
    issue_if(!username_ok(username), FieldIssue { field: Field::Username, rule: username_rule() })
}

/// The outcome of validating a form whose broken rules are `issues`, broken
/// by the values `values`.
pub open spec fn validation_outcome(
    r: Result<(), ValidationErrors>,
    issues: Seq<FieldIssue>,
    values: Seq<Seq<char>>,
) -> bool {
    match r {
        Ok(_) => issues.len() == 0,
        Err(e) => issues.len() > 0 && e.issues@ == issues && string_views(e.values@) == values
            && e.values@.len() == values.len(),
    }
}

/// The value `v` when `broken`, else nothing.
pub open spec fn value_if(broken: bool, v: Seq<char>) -> Seq<Seq<char>> {
    if broken {
        seq![v]
    } else {
        Seq::empty()
    }
}

fn note(
    issues: &mut Vec<FieldIssue>,
    values: &mut Vec<String>,
    broken: bool,
    issue: FieldIssue,
    value: &String,
)
    ensures
        final(issues)@ == old(issues)@ + issue_if(broken, issue),
        string_views(final(values)@) == string_views(old(values)@) + value_if(broken, value@),
{
    if broken {
        issues.push(issue);
        values.push(value.clone());
    }
    assert(final(issues)@ =~= old(issues)@ + issue_if(broken, issue));
    assert(string_views(final(values)@) =~= string_views(old(values)@) + value_if(broken, value@));
}

fn finish(issues: Vec<FieldIssue>, values: Vec<String>) -> (r: Result<(), ValidationErrors>)
    ensures
        validation_outcome(r, issues@, string_views(values@)),
{
    assert(string_views(values@).len() == values@.len());
    if issues.len() == 0 {
        Ok(())
    } else {
        Err(ValidationErrors { issues, values })
    }
}

impl SignupRequest {
    /// Checks every field: a valid e-mail, a username of 3 to 30
    /// characters, a password of at least 8, a non-empty name.
    pub fn validate(&self) -> (r: Result<(), ValidationErrors>)
        ensures
            validation_outcome(
                r,
                signup_issues(self.email@, self.username@, self.password@, self.name@),
                issue_values(
                    signup_issues(self.email@, self.username@, self.password@, self.name@),
                    self.email@,
                    self.username@,
                    self.password@,
                    self.name@,
                ),
            ),
    {
        let mut issues: Vec<FieldIssue> = Vec::new();
        let mut values: Vec<String> = Vec::new();
        let e = email_is_valid(&self.email);
        note(&mut issues, &mut values, !e, FieldIssue { field: Field::Email, rule: Rule::Email }, &self.email);
        let u = length_is_valid(&self.username, Some(3), Some(30));
        note(
            &mut issues,
            &mut values,
            !u,
            FieldIssue { field: Field::Username, rule: Rule::Length { min: 3, max: Some(30) } },
            &self.username,
        );
        let p = length_is_valid(&self.password, Some(8), None);
        note(
            &mut issues,
            &mut values,
            !p,
            FieldIssue { field: Field::Password, rule: Rule::Length { min: 8, max: None } },
            &self.password,
        );
        let n = length_is_valid(&self.name, Some(1), None);
        note(
            &mut issues,
            &mut values,
            !n,
            FieldIssue { field: Field::Name, rule: Rule::Length { min: 1, max: None } },
            &self.name,
        );
        let ghost all = signup_issues(self.email@, self.username@, self.password@, self.name@);
        assert(issues@ =~= all);
        assert(string_views(values@) =~= issue_values(all, self.email@, self.username@, self.password@, self.name@));
        assert(issue_values(all, self.email@, self.username@, self.password@, self.name@).len() == all.len());
        finish(issues, values)
    }
}

impl LoginRequest {
    /// Checks every field: a valid e-mail and a non-empty password.
    pub fn validate(&self) -> (r: Result<(), ValidationErrors>)
        ensures
            validation_outcome(
                r,
                login_issues(self.email@, self.password@),
                issue_values(
                    login_issues(self.email@, self.password@),
                    self.email@,
                    Seq::empty(),
                    self.password@,
                    Seq::empty(),
                ),
            ),
    {
        let mut issues: Vec<FieldIssue> = Vec::new();
        let mut values: Vec<String> = Vec::new();
        let e = email_is_valid(&self.email);
        note(&mut issues, &mut values, !e, FieldIssue { field: Field::Email, rule: Rule::Email }, &self.email);
        let p = length_is_valid(&self.password, Some(1), None);
        note(
            &mut issues,
            &mut values,
            !p,
            FieldIssue { field: Field::Password, rule: Rule::Length { min: 1, max: None } },
            &self.password,
        );
        let ghost all = login_issues(self.email@, self.password@);
        assert(issues@ =~= all);
        assert(string_views(values@) =~= issue_values(all, self.email@, Seq::empty(), self.password@, Seq::empty()));
        assert(issue_values(all, self.email@, Seq::empty(), self.password@, Seq::empty()).len() == all.len());
        finish(issues, values)
    }
}

impl UsernameSetupRequest {
    /// Checks the username: 3 to 30 characters.
    pub fn validate(&self) -> (r: Result<(), ValidationErrors>)
        ensures
            validation_outcome(
                r,
                username_issues(self.username@),
                issue_values(username_issues(self.username@), Seq::empty(), self.username@, Seq::empty(), Seq::empty()),
            ),
    {
        let mut issues: Vec<FieldIssue> = Vec::new();
        let mut values: Vec<String> = Vec::new();
        let u = length_is_valid(&self.username, Some(3), Some(30));
        note(
            &mut issues,
            &mut values,
            !u,
            FieldIssue { field: Field::Username, rule: Rule::Length { min: 3, max: Some(30) } },
            &self.username,
        );
        let ghost all = username_issues(self.username@);
        assert(issues@ =~= all);
        assert(string_views(values@) =~= issue_values(all, Seq::empty(), self.username@, Seq::empty(), Seq::empty()));
        assert(issue_values(all, Seq::empty(), self.username@, Seq::empty(), Seq::empty()).len() == all.len());
        finish(issues, values)
    }
}

/// The name of a field, as the form spells it.
pub open spec fn field_name(f: Field) -> Seq<char> {
    match f {
        Field::Email => "email"@,
        Field::Username => "username"@,
        Field::Password => "password"@,
        Field::Name => "name"@,
    }
}

/// The code of a rule.
pub open spec fn rule_code(r: Rule) -> Seq<char> {
    match r {
        Rule::Email => "email"@,
        Rule::Length { .. } => "length"@,
    }
}

/// The `value` parameter of an error, as `Debug` prints a JSON string.
pub open spec fn value_param(value: Seq<char>) -> Seq<char> {
    "\"value\": String("@ + str_debug(value) + ")"@
}

/// The parameters of an error, as `Debug` prints them: the bounds of a
/// length rule, then the value.
pub open spec fn params_text(rule: Rule, value: Seq<char>) -> Seq<char> {
    match rule {
        Rule::Email => value_param(value),
        Rule::Length { min, max } => "\"min\": Number("@ + decimal(min as nat) + ")"@ + match max {
            Some(m) => ", \"max\": Number("@ + decimal(m as nat) + ")"@,
            None => Seq::empty(),
        } + ", "@ + value_param(value),
    }
}

/// One field's entry, as `Debug` prints the validator's error list.
pub open spec fn issue_text(i: FieldIssue, value: Seq<char>) -> Seq<char> {
    "\""@ + field_name(i.field) + "\": Field([ValidationError { code: \""@ + rule_code(i.rule)
        + "\", message: None, params: {"@ + params_text(i.rule, value) + "} }])"@
}

/// The entries of the issues, joined by `, `.
pub open spec fn issues_text(issues: Seq<FieldIssue>, values: Seq<Seq<char>>) -> Seq<char>
    decreases issues.len(),
{
    if issues.len() == 0 {
        Seq::empty()
    } else if issues.len() == 1 {
        issue_text(issues[0], values[0])
    } else {
        issues_text(issues.drop_last(), values.drop_last()) + ", "@ + issue_text(issues.last(), values.last())
    }
}

/// The error list as `Debug` prints the validator's `ValidationErrors`.
pub open spec fn errors_debug(issues: Seq<FieldIssue>, values: Seq<Seq<char>>) -> Seq<char> {
    "ValidationErrors({"@ + issues_text(issues, values) + "})"@
}

fn field_label(f: Field) -> (r: &'static str)
    ensures
        r@ == field_name(f),
{
    match f {
        Field::Email => "email",
        Field::Username => "username",
        Field::Password => "password",
        Field::Name => "name",
    }
}

fn append_params(out: &mut String, rule: Rule, value: &str)
    ensures
        final(out)@ == old(out)@ + params_text(rule, value@),
{
    match rule {
        Rule::Email => {},
        Rule::Length { min, max } => {
            out.append("\"min\": Number(");
            let d = decimal_string(min);
            out.append(d.as_str());
            out.append(")");
            match max {
                Some(m) => {
                    out.append(", \"max\": Number(");
                    let d = decimal_string(m);
                    out.append(d.as_str());
                    out.append(")");
                },
                None => {},
            }
            out.append(", ");
        },
    }
    out.append("\"value\": String(");
    let q = debug_quoted(value);
    out.append(q.as_str());
    out.append(")");
    assert(final(out)@ =~= old(out)@ + params_text(rule, value@));
}

fn append_issue(out: &mut String, i: FieldIssue, value: &str)
    ensures
        final(out)@ == old(out)@ + issue_text(i, value@),
{
    out.append("\"");
    out.append(field_label(i.field));
    out.append("\": Field([ValidationError { code: \"");
    match i.rule {
        Rule::Email => out.append("email"),
        Rule::Length { .. } => out.append("length"),
    }
    out.append("\", message: None, params: {");
    append_params(out, i.rule, value);
    out.append("} }])");
    assert(final(out)@ =~= old(out)@ + issue_text(i, value@));
}

impl ValidationErrors {
    /// The error list as `Debug` prints the validator's: each broken field,
    /// in the order of the form, with its rule's code, bounds and value. (The
    /// validator keeps fields and parameters in hash maps, so the order it
    /// prints varies from run to run; this is one of those orders.)
    pub fn describe(&self) -> (r: String)
        requires
            self.values@.len() == self.issues@.len(),
        ensures
            r@ == errors_debug(self.issues@, string_views(self.values@)),
    {
        let ghost vs = string_views(self.values@);
        let mut out = String::new();
        out.append("ValidationErrors({");
        let ghost head = out@;
        let n = self.issues.len();
        let mut i: usize = 0;
        while i < n
            invariant
                n == self.issues@.len(),
                n == self.values@.len(),
                vs == string_views(self.values@),
                i <= n,
                out@ == head + issues_text(self.issues@.take(i as int), vs.take(i as int)),
            decreases n - i,
        {
            let issue = self.issues[i];
            if i > 0 {
                out.append(", ");
            }
            append_issue(&mut out, issue, self.values[i].as_str());
            proof {
                let s = self.issues@.take(i + 1);
                let w = vs.take(i + 1);
                assert(s.drop_last() =~= self.issues@.take(i as int));
                assert(w.drop_last() =~= vs.take(i as int));
                assert(s.last() == issue);
                assert(w.last() == self.values@[i as int]@);
                assert(out@ =~= head + issues_text(s, w));
            }
            i = i + 1;
        }
        assert(self.issues@.take(n as int) =~= self.issues@);
        assert(vs.take(n as int) =~= vs);
        out.append("})");
        assert(out@ =~= errors_debug(self.issues@, vs));
        out
    }
}

/// The text of a sign-up reply to a form that breaks `issues` with `values`.
pub open spec fn signup_rejection_text(issues: Seq<FieldIssue>, values: Seq<Seq<char>>) -> Seq<char> {
    "Validation errors: "@ + errors_debug(issues, values)
}

/// The error text of a JSON reply to a form that breaks `issues` with `values`.
pub open spec fn form_rejection_text(issues: Seq<FieldIssue>, values: Seq<Seq<char>>) -> Seq<char> {
    "Validation failed: "@ + errors_debug(issues, values)
}

impl ValidationErrors {
    /// `Validation errors: ` and the error list.
    pub fn signup_text(&self) -> (r: String)
        requires
            self.values@.len() == self.issues@.len(),
        ensures
            r@ == signup_rejection_text(self.issues@, string_views(self.values@)),
    {
        let d = self.describe();
        join_str("Validation errors: ", d.as_str())
    }

    /// `Validation failed: ` and the error list.
    pub fn form_text(&self) -> (r: String)
        requires
            self.values@.len() == self.issues@.len(),
        ensures
            r@ == form_rejection_text(self.issues@, string_views(self.values@)),
    {
        let d = self.describe();
        join_str("Validation failed: ", d.as_str())
    }
}

} // verus!
