//! Request handling rules of the JRep web site: form validation, the
//! sign-up, log-in, OAuth and username-setup flows, and the replies and
//! cookies they produce.

pub mod text;
pub mod error;
pub mod http;
pub mod validation;
pub mod query;
pub mod password;
pub mod oauth;
pub mod tokens;
pub mod flow;
pub mod signup;
pub mod login;
pub mod callback;
pub mod setup;
pub mod templates;
pub mod pages;
