use server_oxide::auth::{get_fake_id, FakeAuthService};
use server_oxide::chat::{Delivery, FakeChatService, Inbound};
use server_oxide::connection::{
    reader_step, writer_step, ConnTask, ReaderAction, ReaderEvent, Supervisor, WriterAction,
    WriterEvent,
};
use server_oxide::domain::{ConversationId, UserId};
use server_oxide::error::ApiError;
use server_oxide::message::{ChatContent, ClientToServer, SendMessage, ServerToClient};

const C1: u128 = 0xc1;

fn header(name: &str) -> String {
    format!("Bearer fake-access-token:{}", name)
}

fn connect(service: &mut FakeChatService, auth: &FakeAuthService, name: &str) -> (UserId, u64) {
    let h = header(name);
    let admission = service.connect(Some(h.as_str()), auth).expect("valid token is admitted");
    (admission.user_id, admission.conn)
}

fn send_frame(conversation: u128, text: &str) -> ClientToServer {
    ClientToServer::Send(SendMessage {
        content: ChatContent {
            conversation_id: ConversationId(conversation),
            content: text.to_string(),
        },
    })
}

fn forward(user: UserId, frame: ClientToServer) -> Inbound {
    match reader_step(user, ReaderEvent::Frame(Some(frame))) {
        ReaderAction::Forward(inbound) => inbound,
        other => panic!("expected a forwarded message, got {:?}", other),
    }
}

fn frames_for(deliveries: &[Delivery], conn: u64) -> Vec<(UserId, u128, String)> {
    deliveries
        .iter()
        .filter(|d| d.conn == conn)
        .map(|d| match &d.frame {
            ServerToClient::Distribute(m) => {
                (m.sender, m.content.conversation_id.0, m.content.content.clone())
            }
        })
        .collect()
}

#[test]
fn scenario_send_reaches_other_user() {
    let auth = FakeAuthService::new();
    let mut service = FakeChatService::new();
    let (a, a_conn) = connect(&mut service, &auth, "A");
    let (b, b_conn) = connect(&mut service, &auth, "B");
    let inbound = forward(a, send_frame(C1, "hi"));
    let deliveries = service.dispatch(&inbound);
    assert_eq!(frames_for(&deliveries, b_conn), vec![(a, C1, "hi".to_string())]);
    assert!(frames_for(&deliveries, a_conn).is_empty());
    assert_eq!(deliveries.len(), 1);
    assert_eq!(deliveries[0].recipient, b);
}

#[test]
fn scenario_closed_connection_leaves_registry() {
    let auth = FakeAuthService::new();
    let mut service = FakeChatService::new();
    let (a, a_conn) = connect(&mut service, &auth, "A");
    let (b, b_conn) = connect(&mut service, &auth, "B");
    let mut supervisor = Supervisor::new();
    assert!(matches!(reader_step(a, ReaderEvent::Closed), ReaderAction::Stop));
    assert!(!supervisor.task_ended(ConnTask::Reader));
    assert!(matches!(writer_step(WriterEvent::MailboxClosed), WriterAction::Stop));
    assert!(supervisor.task_ended(ConnTask::Writer));
    assert!(service.release(a, a_conn));
    assert_eq!(service.connection_of(a), None);
    assert_eq!(service.connection_of(b), Some(b_conn));
    let deliveries = service.dispatch(&forward(b, send_frame(C1, "anyone?")));
    assert!(deliveries.is_empty());
    assert!(frames_for(&deliveries, a_conn).is_empty());
}

#[test]
fn scenario_missing_authorization_refused() {
    let auth = FakeAuthService::new();
    let mut service = FakeChatService::new();
    let r = service.connect(None, &auth);
    assert!(matches!(r, Err(ApiError::InvalidToken)));
    assert_eq!(service.online_count(), 0);
}

#[test]
fn scenario_unknown_frame_ignored() {
    let auth = FakeAuthService::new();
    let mut service = FakeChatService::new();
    let (a, _a_conn) = connect(&mut service, &auth, "A");
    let (b, b_conn) = connect(&mut service, &auth, "B");
    // `{"type":"unknown"}` does not decode into a client frame.
    let action = reader_step(a, ReaderEvent::Frame(None));
    assert!(matches!(action, ReaderAction::Skip));
    assert_eq!(service.online_count(), 2);
    assert_eq!(service.connection_of(a).is_some(), true);
    // B's own traffic still flows.
    let deliveries = service.dispatch(&forward(b, send_frame(C1, "still here")));
    assert_eq!(deliveries.len(), 1);
    assert!(frames_for(&deliveries, b_conn).is_empty());
}

#[test]
fn broadcast_reaches_every_other_user_once() {
    let auth = FakeAuthService::new();
    let mut service = FakeChatService::new();
    let users: Vec<(UserId, u64)> =
        ["u1", "u2", "u3", "u4"].iter().map(|n| connect(&mut service, &auth, n)).collect();
    let (sender, sender_conn) = users[2];
    let deliveries = service.dispatch(&forward(sender, send_frame(7, "hello all")));
    assert_eq!(deliveries.len(), 3);
    for (user, conn) in &users {
        let got = frames_for(&deliveries, *conn);
        if *conn == sender_conn {
            assert!(got.is_empty());
        } else {
            assert_eq!(got, vec![(sender, 7, "hello all".to_string())]);
            assert_eq!(service.connection_of(*user), Some(*conn));
        }
    }
}

#[test]
fn broadcast_with_no_one_else_online_is_empty() {
    let auth = FakeAuthService::new();
    let mut service = FakeChatService::new();
    let (a, _) = connect(&mut service, &auth, "alone");
    assert!(service.dispatch(&forward(a, send_frame(1, "echo?"))).is_empty());
}

#[test]
fn sender_order_is_kept_for_each_recipient() {
    let auth = FakeAuthService::new();
    let mut service = FakeChatService::new();
    let (a, _) = connect(&mut service, &auth, "A");
    let (_b, b_conn) = connect(&mut service, &auth, "B");
    let (_c, c_conn) = connect(&mut service, &auth, "C");
    let mut mailbox_b = Vec::new();
    let mut mailbox_c = Vec::new();
    for text in ["one", "two", "three"] {
        let deliveries = service.dispatch(&forward(a, send_frame(C1, text)));
        mailbox_b.extend(frames_for(&deliveries, b_conn));
        mailbox_c.extend(frames_for(&deliveries, c_conn));
    }
    let expected: Vec<(UserId, u128, String)> =
        ["one", "two", "three"].iter().map(|t| (a, C1, t.to_string())).collect();
    assert_eq!(mailbox_b, expected);
    assert_eq!(mailbox_c, expected);
}

#[test]
fn bad_credentials_never_register() {
    let auth = FakeAuthService::new();
    let mut service = FakeChatService::new();
    for h in ["Basic fake-access-token:A", "Bearer other-token:A", "fake-access-token:A", ""] {
        let r = service.connect(Some(h), &auth);
        assert!(matches!(r, Err(ApiError::InvalidToken)), "header {:?}", h);
    }
    assert_eq!(service.online_count(), 0);
    let (a, conn) = connect(&mut service, &auth, "A");
    assert_eq!(conn, 0);
    assert_eq!(a, get_fake_id("A"));
    assert_eq!(service.online_count(), 1);
}

#[test]
fn malformed_frame_keeps_connection_and_others() {
    let auth = FakeAuthService::new();
    let mut service = FakeChatService::new();
    let (a, a_conn) = connect(&mut service, &auth, "A");
    let (b, b_conn) = connect(&mut service, &auth, "B");
    assert!(matches!(reader_step(b, ReaderEvent::Frame(None)), ReaderAction::Skip));
    assert!(matches!(
        reader_step(b, ReaderEvent::Frame(Some(ClientToServer::HistoryFetched))),
        ReaderAction::Skip
    ));
    let deliveries = service.dispatch(&forward(a, send_frame(C1, "after")));
    assert_eq!(frames_for(&deliveries, b_conn), vec![(a, C1, "after".to_string())]);
    assert_eq!(service.connection_of(a), Some(a_conn));
}

#[test]
fn reconnect_displaces_old_connection_and_old_release_keeps_new() {
    let auth = FakeAuthService::new();
    let mut service = FakeChatService::new();
    let h = header("A");
    let first = service.connect(Some(h.as_str()), &auth).unwrap();
    assert_eq!(first.displaced, None);
    let second = service.connect(Some(h.as_str()), &auth).unwrap();
    assert_eq!(second.displaced, Some(first.conn));
    assert_ne!(second.conn, first.conn);
    assert!(!service.release(first.user_id, first.conn));
    assert_eq!(service.connection_of(first.user_id), Some(second.conn));
    assert!(service.release(second.user_id, second.conn));
    assert_eq!(service.connection_of(first.user_id), None);
    assert!(!service.release(second.user_id, second.conn));
}

#[test]
fn register_numbers_connections_in_order() {
    let mut service = FakeChatService::new();
    let a = service.register(UserId(1)).unwrap();
    let b = service.register(UserId(2)).unwrap();
    assert_eq!((a.conn, b.conn), (0, 1));
    assert_eq!(a.user_id, UserId(1));
    assert_eq!(service.online_count(), 2);
}

#[test]
fn register_verified_reports_auth_failure_unchanged() {
    let auth = FakeAuthService::new();
    let mut service = FakeChatService::new();
    let r = service.register_verified(auth.verify_token("nonsense"));
    assert!(matches!(r, Err(ApiError::InvalidToken)));
    assert_eq!(service.online_count(), 0);
    let ok = service.register_verified(auth.verify_token("fake-access-token:Z")).unwrap();
    assert_eq!(ok.user_id, get_fake_id("Z"));
}

#[test]
fn supervisor_releases_once_in_either_order() {
    let mut s = Supervisor::new();
    assert!(!s.finished());
    assert!(!s.task_ended(ConnTask::Writer));
    assert!(!s.task_ended(ConnTask::Writer));
    assert!(s.task_ended(ConnTask::Reader));
    assert!(s.finished());
    assert!(!s.task_ended(ConnTask::Reader));
    assert!(!s.task_ended(ConnTask::Writer));
}

#[test]
fn writer_writes_in_order_and_stops_on_failure() {
    let frame = ServerToClient::Distribute(server_oxide::message::DistributeMessage {
        sender: UserId(5),
        content: ChatContent { conversation_id: ConversationId(6), content: "x".to_string() },
    });
    match writer_step(WriterEvent::Outgoing(frame)) {
        WriterAction::Write(ServerToClient::Distribute(m)) => {
            assert_eq!(m.sender, UserId(5));
            assert_eq!(m.content.content, "x");
        }
        other => panic!("unexpected {:?}", other),
    }
    assert!(matches!(writer_step(WriterEvent::Written), WriterAction::Wait));
    assert!(matches!(writer_step(WriterEvent::WriteFailed), WriterAction::Stop));
}

#[test]
fn reader_forwards_send_under_its_user() {
    let inbound = forward(UserId(9), send_frame(3, "payload"));
    assert_eq!(inbound.sender, UserId(9));
    assert_eq!(inbound.content.conversation_id, ConversationId(3));
    assert_eq!(inbound.content.content, "payload");
}
