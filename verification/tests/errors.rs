use jrep::error::ExternalFailure;

fn check(f: ExternalFailure, message: &str, status: u16) {
    let e = f.to_app_error();
    assert_eq!(e.message, message);
    assert_eq!(e.status, status);
}

#[test]
fn each_outside_failure_has_its_error() {
    check(
        ExternalFailure::GoogleTokenRequest("timed out".into()),
        "OAuth authentication failed: timed out",
        500,
    );
    check(ExternalFailure::GoogleTokenRead, "Failed to read OAuth response", 500);
    check(
        ExternalFailure::GoogleTokenRejected { status: "400 Bad Request".into(), body: "{\"error\":\"invalid_grant\"}".into() },
        "OAuth authentication failed: 400 Bad Request - {\"error\":\"invalid_grant\"}",
        400,
    );
    check(ExternalFailure::GoogleTokenParse, "Failed to parse OAuth response", 500);
    check(ExternalFailure::UserInfoFetch, "Failed to fetch user information", 500);
    check(ExternalFailure::UserInfoParse, "Failed to parse user information", 500);
    check(ExternalFailure::GitHubToken, "OAuth authentication failed", 500);
    check(ExternalFailure::GitHubEmailsFetch, "Failed to fetch user emails", 500);
    check(ExternalFailure::GitHubEmailsParse, "Failed to parse user emails", 500);
    check(ExternalFailure::TokenCreation, "Token creation failed", 500);
    check(ExternalFailure::TokenDecoding, "Invalid or expired token", 401);
    check(ExternalFailure::PasswordHashing, "Failed to process password", 500);
    check(
        ExternalFailure::PasswordVerification("invalid hash".into()),
        "Password verification error: invalid hash",
        500,
    );
    check(ExternalFailure::TemplateRendering, "Template rendering failed", 500);
    check(ExternalFailure::Database, "Database operation failed", 500);
    check(ExternalFailure::InvalidAccount, "Invalid user account", 500);
}
