use vstd::prelude::*;
use crate::auth::AuthError;
use crate::captcha::CaptchaError;

verus! {

#[verifier::external_type_specification]
#[verifier::external_body]
pub struct ExAnyhowError(anyhow::Error);

/// Relies on `anyhow::Error::msg`: an error that carries a message.
#[verifier::external_body]
pub(crate) fn error_message(message: &'static str) -> (r: anyhow::Error) {
    anyhow::Error::msg(message)
}

/// The failures that the HTTP interface reports to a client.
#[derive(Clone, Copy, Debug, PartialEq, Eq, Structural)]
pub enum ApiError {
    InvalidCaptcha,
    InvalidCredentials,
    UsernameTaken,
    InvalidToken,
    InternalError,
}

impl ApiError {
    /// The message shown to a client for this failure.
    pub fn message(&self) -> (r: String)
        ensures
            r@ == self.message_text()@,
    {
        match self {
            ApiError::InvalidCaptcha => String::from_str("Invalid captcha ID or answer"),
            ApiError::InvalidCredentials => String::from_str("Invalid username or password"),
            ApiError::UsernameTaken => String::from_str("Username already taken"),
            ApiError::InvalidToken => String::from_str("Token is not valid"),
            ApiError::InternalError => String::from_str("Internal error"),
        }
    }

    pub open spec fn message_text(&self) -> &'static str {
        match self {
            ApiError::InvalidCaptcha => "Invalid captcha ID or answer",
            ApiError::InvalidCredentials => "Invalid username or password",
            ApiError::UsernameTaken => "Username already taken",
            ApiError::InvalidToken => "Token is not valid",
            ApiError::InternalError => "Internal error",
        }
    }
}

/// How a captcha failure is reported: a wrong answer and an unknown or expired
/// captcha read alike, an internal failure stays internal.
pub open spec fn api_error_of_captcha(e: CaptchaError) -> ApiError {
    match e {
        CaptchaError::Mismatch | CaptchaError::NotFound => ApiError::InvalidCaptcha,
        CaptchaError::InternalError(_) => ApiError::InternalError,
    }
}

/// How an authentication failure is reported: every token failure reads as an
/// invalid token.
pub open spec fn api_error_of_auth(e: AuthError) -> ApiError {
    match e {
        AuthError::InvalidCredentials => ApiError::InvalidCredentials,
        AuthError::UsernameTaken => ApiError::UsernameTaken,
        AuthError::InvalidToken
        | AuthError::TokenExpired
        | AuthError::InvalidRefreshToken
        | AuthError::RefreshTokenExpired => ApiError::InvalidToken,
        AuthError::InternalError(_) => ApiError::InternalError,
    }
}

pub fn map_captcha_error_to_api_error(e: CaptchaError) -> (r: ApiError)
    ensures
        r == api_error_of_captcha(e),
{
    match e {
        CaptchaError::Mismatch => ApiError::InvalidCaptcha,
        CaptchaError::NotFound => ApiError::InvalidCaptcha,
        CaptchaError::InternalError(_) => ApiError::InternalError,
    }
}

pub fn map_auth_error_to_api_error(e: AuthError) -> (r: ApiError)
    ensures
        r == api_error_of_auth(e),
{
    match e {
        AuthError::InvalidCredentials => ApiError::InvalidCredentials,
        AuthError::UsernameTaken => ApiError::UsernameTaken,
        AuthError::InvalidToken
        | AuthError::TokenExpired
        | AuthError::InvalidRefreshToken
        | AuthError::RefreshTokenExpired => ApiError::InvalidToken,
        AuthError::InternalError(_) => ApiError::InternalError,
    }
}

} // verus!
