use std::borrow::Cow;

use jrep::validation::{Field, LoginRequest, Rule, SignupRequest, UsernameSetupRequest};

fn signup(email: &str, username: &str, password: &str, name: &str) -> SignupRequest {
    SignupRequest {
        email: email.to_string(),
        username: username.to_string(),
        password: password.to_string(),
        name: name.to_string(),
    }
}

fn email_entry(value: &str) -> String {
    format!(
        "\"email\": Field([ValidationError {{ code: \"email\", message: None, params: {{\"value\": String({:?})}} }}])",
        value
    )
}

fn length_entry(field: &str, min: u64, max: Option<u64>, value: &str) -> String {
    let max_part = match max {
        Some(m) => format!(", \"max\": Number({})", m),
        None => String::new(),
    };
    format!(
        "\"{}\": Field([ValidationError {{ code: \"length\", message: None, params: {{\"min\": Number({}){}, \"value\": String({:?})}} }}])",
        field, min, max_part, value
    )
}

#[test]
fn valid_signup_passes() {
    assert!(signup("ada@example.com", "ada", "longenough", "Ada").validate().is_ok());
}

#[test]
fn every_broken_rule_is_listed_in_field_order() {
    let errors = signup("not-an-email", "ab", "short", "").validate().unwrap_err();
    let got: Vec<(Field, Rule)> = errors.issues.iter().map(|i| (i.field, i.rule)).collect();
    assert_eq!(got.len(), 4);
    assert!(matches!(got[0], (Field::Email, Rule::Email)));
    assert!(matches!(got[1], (Field::Username, Rule::Length { min: 3, max: Some(30) })));
    assert!(matches!(got[2], (Field::Password, Rule::Length { min: 8, max: None })));
    assert!(matches!(got[3], (Field::Name, Rule::Length { min: 1, max: None })));
    assert_eq!(errors.values, vec!["not-an-email", "ab", "short", ""]);
    let list = format!(
        "ValidationErrors({{{}, {}, {}, {}}})",
        email_entry("not-an-email"),
        length_entry("username", 3, Some(30), "ab"),
        length_entry("password", 8, None, "short"),
        length_entry("name", 1, None, "")
    );
    assert_eq!(errors.describe(), list);
    assert_eq!(errors.signup_text(), format!("Validation errors: {}", list));
    assert_eq!(errors.form_text(), format!("Validation failed: {}", list));
}

#[test]
fn the_list_is_printed_as_the_validator_prints_it() {
    let mine = signup("plain \"x\"\n", "abc", "12345678", "A").validate().unwrap_err();
    let mut err = validator::ValidationError::new("email");
    err.add_param(Cow::from("value"), &"plain \"x\"\n".to_string());
    let mut theirs = validator::ValidationErrors::new();
    theirs.add("email", err);
    assert_eq!(mine.describe(), format!("{:?}", theirs));

    let mine = UsernameSetupRequest { username: "no".into() }.validate().unwrap_err();
    let mut err = validator::ValidationError::new("length");
    err.add_param(Cow::from("min"), &3);
    err.add_param(Cow::from("max"), &30);
    err.add_param(Cow::from("value"), &"no".to_string());
    let mut theirs = validator::ValidationErrors::new();
    theirs.add("username", err);
    let theirs = format!("{:?}", theirs);
    let mine = mine.describe();
    // the validator keeps parameters in a hash map: same text, up to their order
    assert_eq!(mine.len(), theirs.len());
    for part in ["\"min\": Number(3)", "\"max\": Number(30)", "\"value\": String(\"no\")"] {
        assert!(mine.contains(part) && theirs.contains(part), "{}", part);
    }
    assert!(theirs.starts_with("ValidationErrors({\"username\": Field([ValidationError { code: \"length\", message: None, params: {"));
    assert_eq!(mine, format!("ValidationErrors({{{}}})", length_entry("username", 3, Some(30), "no")));
}

#[test]
fn username_bounds_are_inclusive() {
    assert!(signup("a@b.co", "abc", "12345678", "A").validate().is_ok());
    assert!(signup("a@b.co", &"x".repeat(30), "12345678", "A").validate().is_ok());
    let long = "x".repeat(31);
    let e = signup("a@b.co", &long, "12345678", "A").validate().unwrap_err();
    assert_eq!(e.describe(), format!("ValidationErrors({{{}}})", length_entry("username", 3, Some(30), &long)));
}

#[test]
fn lengths_count_characters_not_bytes() {
    // three characters, six bytes
    assert!(signup("a@b.co", "äöü", "12345678", "A").validate().is_ok());
    // seven characters, fourteen bytes: too short a password
    let e = signup("a@b.co", "abc", "ééééééé", "A").validate().unwrap_err();
    assert_eq!(e.describe(), format!("ValidationErrors({{{}}})", length_entry("password", 8, None, "ééééééé")));
}

#[test]
fn email_rule_follows_the_validator_crate() {
    assert!(signup("first.last+tag@sub.example.org", "abc", "12345678", "A").validate().is_ok());
    for bad in ["", "plain", "@example.com", "a@", "a b@example.com"] {
        let e = signup(bad, "abc", "12345678", "A").validate().unwrap_err();
        assert_eq!(e.describe(), format!("ValidationErrors({{{}}})", email_entry(bad)), "address {:?}", bad);
    }
}

#[test]
fn login_form_needs_an_address_and_a_password() {
    let ok = LoginRequest { email: "ada@example.com".into(), password: "x".into() };
    assert!(ok.validate().is_ok());
    let bad = LoginRequest { email: "ada@example.com".into(), password: String::new() };
    assert_eq!(
        bad.validate().unwrap_err().describe(),
        format!("ValidationErrors({{{}}})", length_entry("password", 1, None, ""))
    );
    let both = LoginRequest { email: "nope".into(), password: String::new() };
    assert_eq!(
        both.validate().unwrap_err().describe(),
        format!("ValidationErrors({{{}, {}}})", email_entry("nope"), length_entry("password", 1, None, ""))
    );
}

#[test]
fn username_setup_form_checks_the_length() {
    assert!(UsernameSetupRequest { username: "newbie".into() }.validate().is_ok());
    let e = UsernameSetupRequest { username: "no".into() }.validate().unwrap_err();
    assert_eq!(e.describe(), format!("ValidationErrors({{{}}})", length_entry("username", 3, Some(30), "no")));
}
