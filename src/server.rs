use vstd::prelude::*;
use crate::auth::{strip_prefix, FakeAuthService};
use crate::captcha::FakeCaptchaService;
use crate::chat::FakeChatService;
use crate::user::FakeUserService;

verus! {

/// Logging settings.
#[derive(Debug)]
pub struct Log {
    pub filter: String,
}

/// Which backend serves one service.
#[derive(Debug)]
pub struct BackendSettings {
    pub backend: String,
}

/// The settings of the server.
#[derive(Debug)]
pub struct Settings {
    pub log: Log,
    pub captcha: BackendSettings,
    pub auth: BackendSettings,
    pub user: BackendSettings,
    pub chat: BackendSettings,
}

/// The services that a backend is chosen for.
#[derive(Clone, Copy, Debug, PartialEq, Eq, Structural)]
pub enum Service {
    Captcha,
    Auth,
    User,
    Chat,
}

/// Why the server could not be put together.
#[derive(Debug)]
pub enum ServerError {
    /// The backend named for a service is not one that exists.
    UnknownBackend(Service, String),
}

/// The backends there are.
#[derive(Clone, Copy, Debug, PartialEq, Eq, Structural)]
pub enum Backend {
    Fake,
}

/// The backend that `name` selects, if any.
pub open spec fn backend_named(name: Seq<char>) -> Option<Backend> {
    if name == "fake"@ {
        Some(Backend::Fake)
    } else {
        None
    }
}

/// The backend that `name` selects, if any.
pub fn parse_backend(name: &str) -> (r: Option<Backend>)
    ensures
        r == backend_named(name@),
{
    proof {
        reveal_strlit("fake");
    }
    match strip_prefix(name, "fake") {
        Some(rest) => {
            if rest.is_empty() {
                assert(name@ =~= "fake"@);
                Some(Backend::Fake)
            } else {
                None
            }
        },
        None => {
            assert(name@ != "fake"@) by {
                if name@ == "fake"@ {
                    assert(name@.subrange(0, 4) =~= name@);
                }
            }
            None
        },
    }
}

/// The first service, in the order captcha, auth, user, chat, whose backend is
/// unknown, with the name given for it.
pub open spec fn first_unknown_backend(s: Settings) -> Option<(Service, Seq<char>)> {
    if backend_named(s.captcha.backend@) is None {
        Some((Service::Captcha, s.captcha.backend@))
    } else if backend_named(s.auth.backend@) is None {
        Some((Service::Auth, s.auth.backend@))
    } else if backend_named(s.user.backend@) is None {
        Some((Service::User, s.user.backend@))
    } else if backend_named(s.chat.backend@) is None {
        Some((Service::Chat, s.chat.backend@))
    } else {
        None
    }
}

/// The services of the server, each of the backend that the settings select.
pub struct Server {
    pub auth_service: FakeAuthService,
    pub captcha_service: FakeCaptchaService,
    pub chat_service: FakeChatService,
    pub user_service: FakeUserService,
}

impl Server {
    /// Puts the server together from `settings`; fails on the first service
    /// whose backend is unknown.
    pub fn try_new(settings: &Settings) -> (r: Result<Server, ServerError>)
        ensures
            r is Ok <==> first_unknown_backend(*settings) is None,
            r matches Err(ServerError::UnknownBackend(service, name)) ==> first_unknown_backend(
                *settings,
            ) == Some((service, name@)),
            r matches Ok(server) ==> {
                &&& forall|u: u128| !server.chat_service.online().contains_key(u)
                &&& server.captcha_service@ == Map::<u128, Seq<char>>::empty()
            },
    {
        let captcha_service = match parse_backend(settings.captcha.backend.as_str()) {
            Some(Backend::Fake) => FakeCaptchaService::new(),
            None => {
                return Err(ServerError::UnknownBackend(Service::Captcha, settings.captcha.backend.clone()));
            },
        };
        let auth_service = match parse_backend(settings.auth.backend.as_str()) {
            Some(Backend::Fake) => FakeAuthService::new(),
            None => {
                return Err(ServerError::UnknownBackend(Service::Auth, settings.auth.backend.clone()));
            },
        };
        let user_service = match parse_backend(settings.user.backend.as_str()) {
            Some(Backend::Fake) => FakeUserService::new(),
            None => {
                return Err(ServerError::UnknownBackend(Service::User, settings.user.backend.clone()));
            },
        };
        let chat_service = match parse_backend(settings.chat.backend.as_str()) {
            Some(Backend::Fake) => FakeChatService::new(),
            None => {
                return Err(ServerError::UnknownBackend(Service::Chat, settings.chat.backend.clone()));
            },
        };
        Ok(Server { auth_service, captcha_service, chat_service, user_service })
    }
}

} // verus!
