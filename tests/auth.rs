use server_oxide::auth::{
    get_fake_id, get_fake_token, AuthError, FakeAuthService, LoginInput, SignupInput,
};
use server_oxide::captcha::CaptchaError;
use server_oxide::domain::UserId;
use server_oxide::error::{map_auth_error_to_api_error, map_captcha_error_to_api_error, ApiError};
use server_oxide::gate::{authorize, bearer_credential, map_chat_error_to_api_error};
use server_oxide::chat::ChatError;
use server_oxide::password::{hash_password, validate_password, verify_password};

#[test]
fn fake_id_is_the_oid_name_uuid() {
    let expected = uuid::Uuid::new_v5(&uuid::Uuid::NAMESPACE_OID, "alice".as_bytes()).as_u128();
    assert_eq!(get_fake_id("alice"), UserId(expected));
    assert_ne!(get_fake_id("alice"), get_fake_id("bob"));
    assert_ne!(get_fake_id("alice").0, 0);
}

#[test]
fn fake_tokens_carry_the_name() {
    let t = get_fake_token("alice");
    assert_eq!(t.access_token, "fake-access-token:alice");
    assert_eq!(t.access_expires_in, 3600);
    assert_eq!(t.refresh_token, "fake-refresh-token:alice");
    assert_eq!(t.refresh_expires_in, 604800);
}

#[test]
fn fake_login_and_signup_succeed() {
    let auth = FakeAuthService::new();
    let r = auth
        .login(LoginInput { username: "carol".to_string(), password: "pw".to_string() })
        .unwrap();
    assert_eq!(r.user_id, get_fake_id("carol"));
    assert_eq!(r.auth_tokens.access_token, "fake-access-token:carol");
    let id = auth
        .signup(SignupInput { username: "carol".to_string(), password: "pw".to_string() })
        .unwrap();
    assert_eq!(id, get_fake_id("carol"));
}

#[test]
fn fake_verify_token_accepts_only_access_tokens() {
    let auth = FakeAuthService::new();
    assert_eq!(auth.verify_token("fake-access-token:dave").unwrap(), get_fake_id("dave"));
    assert_eq!(auth.verify_token("fake-access-token:").unwrap(), get_fake_id(""));
    assert!(matches!(auth.verify_token("fake-refresh-token:dave"), Err(AuthError::InvalidToken)));
    assert!(matches!(auth.verify_token("x-fake-access-token:dave"), Err(AuthError::InvalidToken)));
}

#[test]
fn fake_refresh_token_issues_new_tokens() {
    let auth = FakeAuthService::new();
    let t = auth.refresh_token("fake-refresh-token:erin").unwrap();
    assert_eq!(t.access_token, "fake-access-token:erin");
    assert_eq!(t.refresh_token, "fake-refresh-token:erin");
    assert!(matches!(
        auth.refresh_token("fake-access-token:erin"),
        Err(AuthError::InvalidRefreshToken)
    ));
}

#[test]
fn auth_errors_map_to_api_errors() {
    let cases = vec![
        (AuthError::InvalidCredentials, ApiError::InvalidCredentials),
        (AuthError::UsernameTaken, ApiError::UsernameTaken),
        (AuthError::InvalidToken, ApiError::InvalidToken),
        (AuthError::TokenExpired, ApiError::InvalidToken),
        (AuthError::InvalidRefreshToken, ApiError::InvalidToken),
        (AuthError::RefreshTokenExpired, ApiError::InvalidToken),
        (AuthError::InternalError(anyhow::Error::msg("boom")), ApiError::InternalError),
    ];
    for (e, expected) in cases {
        assert_eq!(map_auth_error_to_api_error(e), expected);
    }
}

#[test]
fn captcha_errors_map_to_api_errors() {
    assert_eq!(map_captcha_error_to_api_error(CaptchaError::Mismatch), ApiError::InvalidCaptcha);
    assert_eq!(map_captcha_error_to_api_error(CaptchaError::NotFound), ApiError::InvalidCaptcha);
    assert_eq!(
        map_captcha_error_to_api_error(CaptchaError::InternalError(anyhow::Error::msg("x"))),
        ApiError::InternalError
    );
    assert_eq!(map_chat_error_to_api_error(ChatError::ConnectionsExhausted), ApiError::InternalError);
}

#[test]
fn api_error_messages() {
    assert_eq!(ApiError::InvalidCaptcha.message(), "Invalid captcha ID or answer");
    assert_eq!(ApiError::InvalidCredentials.message(), "Invalid username or password");
    assert_eq!(ApiError::UsernameTaken.message(), "Username already taken");
    assert_eq!(ApiError::InvalidToken.message(), "Token is not valid");
    assert_eq!(ApiError::InternalError.message(), "Internal error");
}

#[test]
fn bearer_credential_strips_the_scheme() {
    assert_eq!(bearer_credential("Bearer abc"), Some("abc"));
    assert_eq!(bearer_credential("Bearer "), Some(""));
    assert_eq!(bearer_credential("bearer abc"), None);
    assert_eq!(bearer_credential("Bearerabc"), None);
}

#[test]
fn authorize_checks_header_and_token() {
    let auth = FakeAuthService::new();
    assert_eq!(authorize(Some("Bearer fake-access-token:fay"), &auth), Ok(get_fake_id("fay")));
    assert_eq!(authorize(Some("Bearer fake-refresh-token:fay"), &auth), Err(ApiError::InvalidToken));
    assert_eq!(authorize(Some("Token fake-access-token:fay"), &auth), Err(ApiError::InvalidToken));
    assert_eq!(authorize(None, &auth), Err(ApiError::InvalidToken));
}

#[test]
fn password_needs_eight_bytes() {
    assert!(validate_password("1234567").is_err());
    assert!(validate_password("12345678").is_ok());
    assert!(validate_password("").is_err());
    // Four two-byte characters make eight bytes.
    assert!(validate_password("éééé").is_ok());
    assert!(validate_password("ééé").is_err());
    assert_eq!(validate_password("short").unwrap_err().to_string(), "password too short");
}

#[test]
fn hashed_password_verifies() {
    let hash = hash_password("correct horse").unwrap();
    assert_ne!(hash, "correct horse");
    assert!(hash.starts_with("$argon2"));
    assert!(verify_password(&hash, "correct horse"));
    assert!(!verify_password(&hash, "wrong horse"));
    assert!(!verify_password("not a hash", "correct horse"));
}
