use vstd::prelude::*;
use crate::domain::UserId;

verus! {

/// Why an authentication step failed.
#[derive(Debug)]
pub enum AuthError {
    InvalidCredentials,
    UsernameTaken,
    InvalidToken,
    TokenExpired,
    InvalidRefreshToken,
    RefreshTokenExpired,
    InternalError(anyhow::Error),
}

/// The tokens handed to a user who logged in; lifetimes are in seconds.
#[derive(Debug)]
pub struct AuthTokens {
    pub access_token: String,
    pub access_expires_in: u64,
    pub refresh_token: String,
    pub refresh_expires_in: u64,
}

#[derive(Debug)]
pub struct LoginInput {
    pub username: String,
    pub password: String,
}

#[derive(Debug)]
pub struct LoginResult {
    pub user_id: UserId,
    pub auth_tokens: AuthTokens,
}

#[derive(Debug)]
pub struct SignupInput {
    pub username: String,
    pub password: String,
}

/// Whether `s` begins with `prefix`.
pub open spec fn starts_with(s: Seq<char>, prefix: Seq<char>) -> bool {
    prefix.len() <= s.len() && s.subrange(0, prefix.len() as int) == prefix
}

/// What follows `prefix` in `s`, where `s` begins with it.
pub open spec fn after_prefix(s: Seq<char>, prefix: Seq<char>) -> Option<Seq<char>> {
    if starts_with(s, prefix) {
        Some(s.subrange(prefix.len() as int, s.len() as int))
    } else {
        None
    }
}

/// Relies on `str::strip_prefix`: the rest of `s` where it begins with `prefix`,
/// else nothing.
#[verifier::external_body]
pub(crate) fn strip_prefix<'a>(s: &'a str, prefix: &str) -> (r: Option<&'a str>)
    ensures
        r is Some <==> starts_with(s@, prefix@),
        r matches Some(rest) ==> rest@ == s@.subrange(prefix@.len() as int, s@.len() as int),
{
    s.strip_prefix(prefix)
}

/// The user key that a user name stands for: the 128 bits of the name-based
/// (version 5) UUID of the name's bytes in the OID namespace.
pub uninterp spec fn name_key(name: Seq<char>) -> u128;

/// Relies on `uuid::Uuid::new_v5` with `Uuid::NAMESPACE_OID`, and `Uuid::as_u128`:
/// a name-based UUID depends on the name alone.
#[verifier::external_body]
fn oid_name_key(name: &str) -> (r: u128)
    ensures
        r == name_key(name@),
{
    uuid::Uuid::new_v5(&uuid::Uuid::NAMESPACE_OID, name.as_bytes()).as_u128()
}

/// The access token that the fake backend issues to `name`.
pub open spec fn fake_access_token(name: Seq<char>) -> Seq<char> {
    "fake-access-token:"@ + name
}

/// The refresh token that the fake backend issues to `name`.
pub open spec fn fake_refresh_token(name: Seq<char>) -> Seq<char> {
    "fake-refresh-token:"@ + name
}

/// An access token lives one hour.
pub const ACCESS_TOKEN_LIFETIME: u64 = 3600;

/// A refresh token lives seven days.
pub const REFRESH_TOKEN_LIFETIME: u64 = 604800;

/// Whether `t` are the tokens that the fake backend issues to `name`.
pub open spec fn fake_tokens_of(t: AuthTokens, name: Seq<char>) -> bool {
    &&& t.access_token@ == fake_access_token(name)
    &&& t.access_expires_in == ACCESS_TOKEN_LIFETIME
    &&& t.refresh_token@ == fake_refresh_token(name)
    &&& t.refresh_expires_in == REFRESH_TOKEN_LIFETIME
}

/// The user that the fake backend assigns to `username`.
pub fn get_fake_id(username: &str) -> (r: UserId)
    ensures
        r == UserId(name_key(username@)),
{
    UserId(oid_name_key(username))
}

/// The tokens that the fake backend issues to `username`.
pub fn get_fake_token(username: &str) -> (r: AuthTokens)
    ensures
        fake_tokens_of(r, username@),
{
    let mut access_token = String::from_str("fake-access-token:");
    access_token.append(username);
    let mut refresh_token = String::from_str("fake-refresh-token:");
    refresh_token.append(username);
    AuthTokens {
        access_token,
        access_expires_in: ACCESS_TOKEN_LIFETIME,
        refresh_token,
        refresh_expires_in: REFRESH_TOKEN_LIFETIME,
    }
}

/// An authentication backend for development: every name and password is
/// accepted, a user's key is derived from the name, and a token is a fixed
/// prefix followed by the name.
#[derive(Debug)]
pub struct FakeAuthService;

impl FakeAuthService {
    pub fn new() -> (r: Self) {
        FakeAuthService
    }

    pub fn login(&self, request: LoginInput) -> (r: Result<LoginResult, AuthError>)
        ensures
            r matches Ok(res) && res.user_id == UserId(name_key(request.username@))
                && fake_tokens_of(res.auth_tokens, request.username@),
    {
        let user_id = get_fake_id(request.username.as_str());
        let auth_tokens = get_fake_token(request.username.as_str());
        Ok(LoginResult { user_id, auth_tokens })
    }

    pub fn signup(&self, request: SignupInput) -> (r: Result<UserId, AuthError>)
        ensures
            r matches Ok(id) && id == UserId(name_key(request.username@)),
    {
        Ok(get_fake_id(request.username.as_str()))
    }

    /// The user that an access token was issued to.
    pub fn verify_token(&self, token: &str) -> (r: Result<UserId, AuthError>)
        ensures
            r is Ok <==> starts_with(token@, "fake-access-token:"@),
            r matches Ok(id) ==> id == UserId(
                name_key(after_prefix(token@, "fake-access-token:"@)->Some_0),
            ),
            r is Err ==> r matches Err(AuthError::InvalidToken),
    {
        match strip_prefix(token, "fake-access-token:") {
            Some(username) => Ok(get_fake_id(username)),
            None => Err(AuthError::InvalidToken),
        }
    }

    /// Fresh tokens for the user that a refresh token was issued to.
    pub fn refresh_token(&self, refresh_token: &str) -> (r: Result<AuthTokens, AuthError>)
        ensures
            r is Ok <==> starts_with(refresh_token@, "fake-refresh-token:"@),
            r matches Ok(t) ==> fake_tokens_of(
                t,
                after_prefix(refresh_token@, "fake-refresh-token:"@)->Some_0,
            ),
            r is Err ==> r matches Err(AuthError::InvalidRefreshToken),
    {
        match strip_prefix(refresh_token, "fake-refresh-token:") {
            Some(username) => Ok(get_fake_token(username)),
            None => Err(AuthError::InvalidRefreshToken),
        }
    }
}

} // verus!
