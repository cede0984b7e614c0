use server_oxide::auth::{get_fake_id, FakeAuthService};
use server_oxide::captcha::{
    answer_matches, jpeg_data_url_payload, CaptchaError, FakeCaptchaService, ValidationInput,
};
use server_oxide::domain::{ConversationId, UserId};
use server_oxide::error::ApiError;
use server_oxide::handler::{login, signup, LoginRequest, SignupRequest, SignupResponse};
use server_oxide::server::{
    parse_backend, Backend, BackendSettings, Log, Server, ServerError, Service, Settings,
};
use server_oxide::user::{FakeUserService, UserServiceError};

fn input(id: u128, answer: &str) -> ValidationInput {
    ValidationInput { id, answer: answer.to_string() }
}

#[test]
fn answers_match_ignoring_ascii_case() {
    assert!(answer_matches("aB3xY", "Ab3Xy"));
    assert!(answer_matches("", ""));
    assert!(!answer_matches("abc", "abd"));
    assert!(!answer_matches("abc", "abcd"));
    assert!(!answer_matches("é", "É"));
    assert!(!answer_matches("[", "{"));
}

#[test]
fn captcha_is_used_up_by_validation() {
    let mut captcha = FakeCaptchaService::new();
    captcha.store(1, "QwErTy".to_string());
    captcha.store(2, "zzz".to_string());
    assert!(captcha.validate(input(1, "qwerty")).is_ok());
    assert!(matches!(captcha.validate(input(1, "qwerty")), Err(CaptchaError::NotFound)));
    assert!(matches!(captcha.validate(input(2, "zz")), Err(CaptchaError::Mismatch)));
    assert!(matches!(captcha.validate(input(2, "zzz")), Err(CaptchaError::NotFound)));
    assert!(matches!(captcha.validate(input(3, "")), Err(CaptchaError::NotFound)));
}

#[test]
fn login_checks_captcha_first() {
    let auth = FakeAuthService::new();
    let mut captcha = FakeCaptchaService::new();
    captcha.store(10, "abcd".to_string());
    let request = |answer: &str| LoginRequest {
        username: "gus".to_string(),
        password: "pw".to_string(),
        captcha_id: 10,
        captcha_answer: answer.to_string(),
    };
    assert!(matches!(login(request("nope"), &auth, &mut captcha), Err(ApiError::InvalidCaptcha)));
    assert!(matches!(login(request("abcd"), &auth, &mut captcha), Err(ApiError::InvalidCaptcha)));
    captcha.store(10, "abcd".to_string());
    let r = login(request("ABCD"), &auth, &mut captcha).unwrap();
    assert_eq!(r.user_id, get_fake_id("gus"));
    assert_eq!(r.auth_tokens.access_token, "fake-access-token:gus");
    assert_eq!(r.auth_tokens.refresh_token, "fake-refresh-token:gus");
}

#[test]
fn signup_checks_captcha() {
    let auth = FakeAuthService::new();
    let mut captcha = FakeCaptchaService::new();
    captcha.store(4, "x1".to_string());
    let request = SignupRequest {
        username: "hal".to_string(),
        password: "pw".to_string(),
        captcha_id: 4,
        captcha_answer: "X1".to_string(),
    };
    assert_eq!(signup(request, &auth, &mut captcha), Ok(SignupResponse));
    let again = SignupRequest {
        username: "hal".to_string(),
        password: "pw".to_string(),
        captcha_id: 4,
        captcha_answer: "X1".to_string(),
    };
    assert_eq!(signup(again, &auth, &mut captcha), Err(ApiError::InvalidCaptcha));
}

fn settings(captcha: &str, auth: &str, user: &str, chat: &str) -> Settings {
    let b = |s: &str| BackendSettings { backend: s.to_string() };
    Settings {
        log: Log { filter: "info".to_string() },
        captcha: b(captcha),
        auth: b(auth),
        user: b(user),
        chat: b(chat),
    }
}

#[test]
fn backends_are_parsed_by_name() {
    assert_eq!(parse_backend("fake"), Some(Backend::Fake));
    assert_eq!(parse_backend("Fake"), None);
    assert_eq!(parse_backend("fake "), None);
    assert_eq!(parse_backend("fak"), None);
    assert_eq!(parse_backend(""), None);
}

#[test]
fn server_is_built_from_fake_backends() {
    let server = Server::try_new(&settings("fake", "fake", "fake", "fake")).unwrap();
    assert_eq!(server.chat_service.online_count(), 0);
}

#[test]
fn server_reports_first_unknown_backend() {
    let cases = [
        (settings("redis", "jwt", "fake", "fake"), Service::Captcha, "redis"),
        (settings("fake", "jwt", "sql", "fake"), Service::Auth, "jwt"),
        (settings("fake", "fake", "sql", "x"), Service::User, "sql"),
        (settings("fake", "fake", "fake", "x"), Service::Chat, "x"),
    ];
    for (s, service, name) in cases {
        match Server::try_new(&s) {
            Err(ServerError::UnknownBackend(got, n)) => {
                assert_eq!(got, service);
                assert_eq!(n, name);
            }
            Ok(_) => panic!("expected an unknown backend"),
        }
    }
}

fn test_user(i: u32) -> UserId {
    get_fake_id(&format!("testuser{}", i))
}

#[test]
fn receivers_of_the_test_users() {
    let users = FakeUserService::new();
    let c = ConversationId(42);
    assert_eq!(users.get_receiver(&test_user(0), &c), Ok(vec![test_user(1)]));
    assert_eq!(users.get_receiver(&test_user(1), &c), Ok(vec![test_user(0)]));
    assert_eq!(users.get_receiver(&test_user(2), &c), Ok(vec![test_user(0), test_user(1)]));
    assert_eq!(users.get_receiver(&test_user(3), &c), Err(UserServiceError::NoReceivers(3)));
    assert_eq!(users.get_receiver(&test_user(9), &c), Err(UserServiceError::NoReceivers(9)));
    assert_eq!(
        users.get_receiver(&get_fake_id("stranger"), &c),
        Err(UserServiceError::UnknownUser)
    );
}

#[test]
fn jpeg_payload_is_cut_from_data_url() {
    assert_eq!(jpeg_data_url_payload("data:image/jpeg;base64,/9j/AAAA"), Some("/9j/AAAA"));
    assert_eq!(jpeg_data_url_payload("data:image/png;base64,iVBOR"), None);
    assert_eq!(jpeg_data_url_payload(""), None);
}

#[test]
fn generated_captcha_is_pending_once() {
    let mut captcha = FakeCaptchaService::new();
    let first = captcha.generate().unwrap();
    let second = captcha.generate().unwrap();
    assert_ne!(first.id, second.id);
    assert!(!first.image_base64.is_empty());
    assert!(!first.image_base64.starts_with("data:"));
    // A JPEG's base64 starts with the encoding of its SOI marker.
    assert!(first.image_base64.starts_with("/9j/"));
    // The answer is six characters; a wrong one is a mismatch, not an unknown id.
    assert!(matches!(captcha.validate(input(first.id, "#")), Err(CaptchaError::Mismatch)));
    assert!(matches!(captcha.validate(input(first.id, "#")), Err(CaptchaError::NotFound)));
    assert!(matches!(captcha.validate(input(second.id, "#")), Err(CaptchaError::Mismatch)));
}

#[test]
fn new_chat_service_is_empty() {
    let service = server_oxide::chat::FakeChatService::new();
    assert_eq!(service.online_count(), 0);
    assert_eq!(service.connection_of(UserId(1)), None);
}
