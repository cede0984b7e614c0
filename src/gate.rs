use vstd::prelude::*;
use crate::auth::{after_prefix, name_key, starts_with, strip_prefix, AuthError, FakeAuthService};
use crate::chat::{Admission, ChatError, FakeChatService};
use crate::domain::UserId;
use crate::error::{api_error_of_auth, map_auth_error_to_api_error, ApiError};

verus! {

/// The credential in an `Authorization` header value of the bearer scheme.
pub open spec fn bearer_credential_of(header: Seq<char>) -> Option<Seq<char>> {
    after_prefix(header, "Bearer "@)
}

/// The user that an `Authorization` header proves to the fake backend, if any:
/// the header must be present, of the bearer scheme, and carry an access token
/// that the fake backend issued.
pub open spec fn fake_bearer_identity(header: Option<&str>) -> Option<UserId> {
    match header {
        Some(h) => match bearer_credential_of(h@) {
            Some(token) => match after_prefix(token, "fake-access-token:"@) {
                Some(name) => Some(UserId(name_key(name))),
                None => None,
            },
            None => None,
        },
        None => None,
    }
}

/// The credential of a bearer `Authorization` header value, if it is one.
pub fn bearer_credential(header: &str) -> (r: Option<&str>)
    ensures
        r is Some <==> bearer_credential_of(header@) is Some,
        r matches Some(t) ==> t@ == bearer_credential_of(header@)->Some_0,
{
    strip_prefix(header, "Bearer ")
}

/// The user that an `Authorization` header proves to `auth`. A missing header,
/// another scheme, or a token that `auth` rejects reads as an invalid token.
pub fn authorize(header: Option<&str>, auth: &FakeAuthService) -> (r: Result<UserId, ApiError>)
    ensures
        fake_bearer_identity(header) matches Some(id) ==> r == Ok::<UserId, ApiError>(id),
        fake_bearer_identity(header) is None ==> r == Err::<UserId, ApiError>(ApiError::InvalidToken),
{
    match header {
        Some(h) => match bearer_credential(h) {
            Some(token) => match auth.verify_token(token) {
                Ok(id) => Ok(id),
                Err(e) => Err(map_auth_error_to_api_error(e)),
            },
            None => Err(ApiError::InvalidToken),
        },
        None => Err(ApiError::InvalidToken),
    }
}

/// How a failure to register is reported to a client.
pub fn map_chat_error_to_api_error(e: ChatError) -> (r: ApiError)
    ensures
        r == ApiError::InternalError,
{
    match e {
        ChatError::ConnectionsExhausted => ApiError::InternalError,
    }
}

impl FakeChatService {
    /// Registers a connection for the outcome of an identity check: a failed
    /// check is reported as such and leaves the service as it was.
    pub fn register_verified(&mut self, verified: Result<UserId, AuthError>) -> (r: Result<
        Admission,
        ApiError,
    >)
        ensures
            r is Err ==> *final(self) == *old(self),
            verified matches Err(e) ==> r == Err::<Admission, ApiError>(api_error_of_auth(e)),
            verified matches Ok(id) ==> {
                &&& r is Ok <==> old(self).next_conn() < u64::MAX
                &&& r is Err ==> r == Err::<Admission, ApiError>(ApiError::InternalError)
                &&& r matches Ok(a) ==> a.user_id == id && final(self).online() == old(
                    self,
                ).online().insert(id.0, a.conn) && a.conn == old(self).next_conn()
                    && !old(self).issued().contains_key(a.conn)
                    && final(self).issued() == old(self).issued().insert(a.conn, id.0)
                    && a.displaced == (if old(self).online().contains_key(id.0) {
                    Some(old(self).online()[id.0])
                } else {
                    None::<u64>
                })
            },
    {
        match verified {
            Ok(id) => match self.register(id) {
                Ok(a) => Ok(a),
                Err(e) => Err(map_chat_error_to_api_error(e)),
            },
            Err(e) => Err(map_auth_error_to_api_error(e)),
        }
    }

    /// Takes an upgrade request with its `Authorization` header: registers a
    /// connection for the user the header proves, and nothing otherwise.
    pub fn connect(&mut self, header: Option<&str>, auth: &FakeAuthService) -> (r: Result<
        Admission,
        ApiError,
    >)
        ensures
            r is Ok <==> fake_bearer_identity(header) is Some && old(self).next_conn() < u64::MAX,
            r is Err ==> *final(self) == *old(self),
            fake_bearer_identity(header) is None ==> r == Err::<Admission, ApiError>(
                ApiError::InvalidToken,
            ),
            r matches Ok(a) ==> {
                let id = fake_bearer_identity(header)->Some_0;
                &&& a.user_id == id
                &&& a.conn == old(self).next_conn()
                &&& final(self).online() == old(self).online().insert(id.0, a.conn)
                &&& final(self).issued() == old(self).issued().insert(a.conn, id.0)
            },
    {
        match authorize(header, auth) {
            Ok(id) => match self.register(id) {
                Ok(a) => Ok(a),
                Err(e) => Err(map_chat_error_to_api_error(e)),
            },
            Err(e) => Err(e),
        }
    }
}

} // verus!
