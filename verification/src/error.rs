//! The error that a request can end in, and the failures of outside
//! services that lead to it.

use vstd::prelude::*;
use crate::text::{join_str, owned};

verus! {

/// HTTP 200 OK.
pub const STATUS_OK: u16 = 200;
/// HTTP 303 See Other.
pub const STATUS_SEE_OTHER: u16 = 303;
/// HTTP 400 Bad Request.
pub const STATUS_BAD_REQUEST: u16 = 400;
/// HTTP 401 Unauthorized.
pub const STATUS_UNAUTHORIZED: u16 = 401;
/// HTTP 500 Internal Server Error.
pub const STATUS_INTERNAL_ERROR: u16 = 500;

/// An error that ends a request: its reply is `status` with `message` as body.
#[derive(Debug)]
pub struct AppError {
    pub message: String,
    pub status: u16,
}

/// What an [`AppError`] stands for.
pub struct AppErrorView {
    pub message: Seq<char>,
    pub status: u16,
}

impl View for AppError {
    type V = AppErrorView;

    open spec fn view(&self) -> AppErrorView {
        AppErrorView { message: self.message@, status: self.status }
    }
}

/// The error of a failed database operation.
pub open spec fn database_error_view() -> AppErrorView {
    AppErrorView { message: "Database operation failed"@, status: STATUS_INTERNAL_ERROR }
}

/// The error of a session token that could not be created.
pub open spec fn token_error_view() -> AppErrorView {
    AppErrorView { message: "Token creation failed"@, status: STATUS_INTERNAL_ERROR }
}

impl AppError {
    /// An error with the given message and status.
    pub fn new(message: &str, status: u16) -> (r: AppError)
        ensures
            r@ == (AppErrorView { message: message@, status }),
    {
        AppError { message: owned(message), status }
    }

    /// The error every failed database operation becomes.
    pub fn database_failure() -> (r: AppError)
        ensures
            r@ == database_error_view(),
    {
        AppError::new("Database operation failed", STATUS_INTERNAL_ERROR)
    }

    /// The HTTP status of the error.
    pub fn status_code(&self) -> (r: u16)
        ensures
            r == self.status,
    {
        self.status
    }

    /// The text of the error, as it is shown to the user.
    pub fn text(&self) -> (r: String)
        ensures
            r@ == self.message@,
    {
        self.message.clone()
    }
}

/// A failure reported by an outside service or computation.
#[derive(Debug)]
pub enum ExternalFailure {
    /// The request for Google's tokens could not be sent; carries the transport error.
    GoogleTokenRequest(String),
    /// Google's token reply could not be read.
    GoogleTokenRead,
    /// Google refused the code: the reply's status line and body.
    GoogleTokenRejected { status: String, body: String },
    /// Google's token reply is not the expected JSON.
    GoogleTokenParse,
    /// The user's profile could not be fetched.
    UserInfoFetch,
    /// The user's profile is not the expected JSON.
    UserInfoParse,
    /// GitHub's access token could not be obtained.
    GitHubToken,
    /// The user's e-mail list could not be fetched from GitHub.
    GitHubEmailsFetch,
    /// The user's e-mail list from GitHub is not the expected JSON.
    GitHubEmailsParse,
    /// A signed token could not be created.
    TokenCreation,
    /// A signed token could not be decoded or has expired.
    TokenDecoding,
    /// The password could not be hashed.
    PasswordHashing,
    /// A stored password hash could not be checked; carries the error text.
    PasswordVerification(String),
    /// A page template could not be rendered.
    TemplateRendering,
    /// A database operation failed.
    Database,
    /// A local account holds no password hash.
    InvalidAccount,
}

/// What an [`ExternalFailure`] stands for.
pub enum ExternalFailureView {
    GoogleTokenRequest(Seq<char>),
    GoogleTokenRead,
    GoogleTokenRejected { status: Seq<char>, body: Seq<char> },
    GoogleTokenParse,
    UserInfoFetch,
    UserInfoParse,
    GitHubToken,
    GitHubEmailsFetch,
    GitHubEmailsParse,
    TokenCreation,
    TokenDecoding,
    PasswordHashing,
    PasswordVerification(Seq<char>),
    TemplateRendering,
    Database,
    InvalidAccount,
}

impl View for ExternalFailure {
    type V = ExternalFailureView;

    open spec fn view(&self) -> ExternalFailureView {
        match self {
            ExternalFailure::GoogleTokenRequest(d) => ExternalFailureView::GoogleTokenRequest(d@),
            ExternalFailure::GoogleTokenRead => ExternalFailureView::GoogleTokenRead,
            ExternalFailure::GoogleTokenRejected { status, body } => ExternalFailureView::GoogleTokenRejected {
                status: status@,
                body: body@,
            },
            ExternalFailure::GoogleTokenParse => ExternalFailureView::GoogleTokenParse,
            ExternalFailure::UserInfoFetch => ExternalFailureView::UserInfoFetch,
            ExternalFailure::UserInfoParse => ExternalFailureView::UserInfoParse,
            ExternalFailure::GitHubToken => ExternalFailureView::GitHubToken,
            ExternalFailure::GitHubEmailsFetch => ExternalFailureView::GitHubEmailsFetch,
            ExternalFailure::GitHubEmailsParse => ExternalFailureView::GitHubEmailsParse,
            ExternalFailure::TokenCreation => ExternalFailureView::TokenCreation,
            ExternalFailure::TokenDecoding => ExternalFailureView::TokenDecoding,
            ExternalFailure::PasswordHashing => ExternalFailureView::PasswordHashing,
            ExternalFailure::PasswordVerification(d) => ExternalFailureView::PasswordVerification(d@),
            ExternalFailure::TemplateRendering => ExternalFailureView::TemplateRendering,
            ExternalFailure::Database => ExternalFailureView::Database,
            ExternalFailure::InvalidAccount => ExternalFailureView::InvalidAccount,
        }
    }
}

/// The error that each outside failure ends the request in.
pub open spec fn failure_error(f: ExternalFailureView) -> AppErrorView {
    match f {
        ExternalFailureView::GoogleTokenRequest(d) => AppErrorView {
            message: "OAuth authentication failed: "@ + d,
            status: STATUS_INTERNAL_ERROR,
        },
        ExternalFailureView::GoogleTokenRead => AppErrorView {
            message: "Failed to read OAuth response"@,
            status: STATUS_INTERNAL_ERROR,
        },
        ExternalFailureView::GoogleTokenRejected { status, body } => AppErrorView {
            message: "OAuth authentication failed: "@ + status + " - "@ + body,
            status: STATUS_BAD_REQUEST,
        },
        ExternalFailureView::GoogleTokenParse => AppErrorView {
            message: "Failed to parse OAuth response"@,
            status: STATUS_INTERNAL_ERROR,
        },
        ExternalFailureView::UserInfoFetch => AppErrorView {
            message: "Failed to fetch user information"@,
            status: STATUS_INTERNAL_ERROR,
        },
        ExternalFailureView::UserInfoParse => AppErrorView {
            message: "Failed to parse user information"@,
            status: STATUS_INTERNAL_ERROR,
        },
        ExternalFailureView::GitHubToken => AppErrorView {
            message: "OAuth authentication failed"@,
            status: STATUS_INTERNAL_ERROR,
        },
        ExternalFailureView::GitHubEmailsFetch => AppErrorView {
            message: "Failed to fetch user emails"@,
            status: STATUS_INTERNAL_ERROR,
        },
        ExternalFailureView::GitHubEmailsParse => AppErrorView {
            message: "Failed to parse user emails"@,
            status: STATUS_INTERNAL_ERROR,
        },
        ExternalFailureView::TokenCreation => token_error_view(),
        ExternalFailureView::TokenDecoding => AppErrorView {
            message: "Invalid or expired token"@,
            status: STATUS_UNAUTHORIZED,
        },
        ExternalFailureView::PasswordHashing => AppErrorView {
            message: "Failed to process password"@,
            status: STATUS_INTERNAL_ERROR,
        },
        ExternalFailureView::PasswordVerification(d) => AppErrorView {
            message: "Password verification error: "@ + d,
            status: STATUS_INTERNAL_ERROR,
        },
        ExternalFailureView::TemplateRendering => AppErrorView {
            message: "Template rendering failed"@,
            status: STATUS_INTERNAL_ERROR,
        },
        ExternalFailureView::Database => database_error_view(),
        ExternalFailureView::InvalidAccount => AppErrorView {
            message: "Invalid user account"@,
            status: STATUS_INTERNAL_ERROR,
        },
    }
}

impl ExternalFailure {
    /// The error that the failure ends the request in.
    pub fn to_app_error(&self) -> (r: AppError)
        ensures
            r@ == failure_error(self@),
    {
        match self {
            ExternalFailure::GoogleTokenRequest(d) => AppError {
                message: join_str("OAuth authentication failed: ", d.as_str()),
                status: STATUS_INTERNAL_ERROR,
            },
            ExternalFailure::GoogleTokenRead => AppError::new(
                "Failed to read OAuth response",
                STATUS_INTERNAL_ERROR,
            ),
            ExternalFailure::GoogleTokenRejected { status, body } => {
                let mut m = join_str("OAuth authentication failed: ", status.as_str());
                m.append(" - ");
                m.append(body.as_str());
                AppError { message: m, status: STATUS_BAD_REQUEST }
            },
            ExternalFailure::GoogleTokenParse => AppError::new(
                "Failed to parse OAuth response",
                STATUS_INTERNAL_ERROR,
            ),
            ExternalFailure::UserInfoFetch => AppError::new(
                "Failed to fetch user information",
                STATUS_INTERNAL_ERROR,
            ),
            ExternalFailure::UserInfoParse => AppError::new(
                "Failed to parse user information",
                STATUS_INTERNAL_ERROR,
            ),
            ExternalFailure::GitHubToken => AppError::new(
                "OAuth authentication failed",
                STATUS_INTERNAL_ERROR,
            ),
            ExternalFailure::GitHubEmailsFetch => AppError::new(
                "Failed to fetch user emails",
                STATUS_INTERNAL_ERROR,
            ),
            ExternalFailure::GitHubEmailsParse => AppError::new(
                "Failed to parse user emails",
                STATUS_INTERNAL_ERROR,
            ),
            ExternalFailure::TokenCreation => AppError::new(
                "Token creation failed",
                STATUS_INTERNAL_ERROR,
            ),
            ExternalFailure::TokenDecoding => AppError::new(
                "Invalid or expired token",
                STATUS_UNAUTHORIZED,
            ),
            ExternalFailure::PasswordHashing => AppError::new(
                "Failed to process password",
                STATUS_INTERNAL_ERROR,
            ),
            ExternalFailure::PasswordVerification(d) => AppError {
                message: join_str("Password verification error: ", d.as_str()),
                status: STATUS_INTERNAL_ERROR,
            },
            ExternalFailure::TemplateRendering => AppError::new(
                "Template rendering failed",
                STATUS_INTERNAL_ERROR,
            ),
            ExternalFailure::Database => AppError::database_failure(),
            ExternalFailure::InvalidAccount => AppError::new(
                "Invalid user account",
                STATUS_INTERNAL_ERROR,
            ),
        }
    }
}

} // verus!
