use vstd::prelude::*;
use crate::auth::{fake_tokens_of, name_key, AuthTokens, FakeAuthService, LoginInput, SignupInput};
use crate::captcha::{eq_ignoring_ascii_case, FakeCaptchaService, ValidationInput};
use crate::domain::UserId;
use crate::error::{map_auth_error_to_api_error, map_captcha_error_to_api_error, ApiError};

verus! {

/// A login request: credentials, and the answer to a captcha.
#[derive(Debug)]
pub struct LoginRequest {
    pub username: String,
    pub password: String,
    pub captcha_id: u128,
    pub captcha_answer: String,
}

/// What a successful login returns.
#[derive(Debug)]
pub struct LoginResponse {
    pub user_id: UserId,
    pub auth_tokens: AuthTokens,
}

/// A signup request: credentials, and the answer to a captcha.
#[derive(Debug)]
pub struct SignupRequest {
    pub username: String,
    pub password: String,
    pub captcha_id: u128,
    pub captcha_answer: String,
}

/// What a successful signup returns.
#[derive(Clone, Copy, Debug, PartialEq, Eq, Structural)]
pub struct SignupResponse;

/// Whether the captcha of a request passes: it is pending and answered right.
pub open spec fn captcha_passes(pending: Map<u128, Seq<char>>, id: u128, answer: Seq<char>) -> bool {
    pending.contains_key(id) && eq_ignoring_ascii_case(pending[id], answer)
}

/// Logs a user in: the captcha is checked (and used up) first, then the
/// credentials.
pub fn login(body: LoginRequest, auth_service: &FakeAuthService, captcha_service: &mut FakeCaptchaService) -> (r: Result<LoginResponse, ApiError>)
    ensures
        final(captcha_service)@ == old(captcha_service)@.remove(body.captcha_id),
        r is Ok <==> captcha_passes(old(captcha_service)@, body.captcha_id, body.captcha_answer@),
        r is Err ==> r == Err::<LoginResponse, ApiError>(ApiError::InvalidCaptcha),
        r matches Ok(res) ==> res.user_id == UserId(name_key(body.username@)) && fake_tokens_of(
            res.auth_tokens,
            body.username@,
        ),
{
    let validation_input = ValidationInput { id: body.captcha_id, answer: body.captcha_answer };
    match captcha_service.validate(validation_input) {
        Ok(()) => {},
        Err(e) => {
            return Err(map_captcha_error_to_api_error(e));
        },
    }
    let login_input = LoginInput { username: body.username, password: body.password };
    match auth_service.login(login_input) {
        Ok(login_result) => Ok(
            LoginResponse { user_id: login_result.user_id, auth_tokens: login_result.auth_tokens },
        ),
        Err(e) => Err(map_auth_error_to_api_error(e)),
    }
}

/// Signs a user up: the captcha is checked (and used up) first, then the
/// credentials go to the backend.
pub fn signup(body: SignupRequest, auth_service: &FakeAuthService, captcha_service: &mut FakeCaptchaService) -> (r: Result<SignupResponse, ApiError>)
    ensures
        final(captcha_service)@ == old(captcha_service)@.remove(body.captcha_id),
        r is Ok <==> captcha_passes(old(captcha_service)@, body.captcha_id, body.captcha_answer@),
        r is Err ==> r == Err::<SignupResponse, ApiError>(ApiError::InvalidCaptcha),
{
    let validation_input = ValidationInput { id: body.captcha_id, answer: body.captcha_answer };
    match captcha_service.validate(validation_input) {
        Ok(()) => {},
        Err(e) => {
            return Err(map_captcha_error_to_api_error(e));
        },
    }
    let signup_input = SignupInput { username: body.username, password: body.password };
    match auth_service.signup(signup_input) {
        Ok(_user_id) => Ok(SignupResponse),
        Err(e) => Err(map_auth_error_to_api_error(e)),
    }
}

} // verus!
