use chat_delivery::connection::{authenticate, Connection, Credential, Inbound, Reaction, Rejection};
use chat_delivery::pipeline::{Failure, Stage, Step};
use chat_delivery::protocol::{ClientMessage, ServerMessage};
use chat_delivery::records::{MySelf, Role};
use chat_delivery::registry::{ChatConnectionManager, Recipient};
use chat_delivery::store::StoreRequest;

#[test]
fn authenticate_accepts_a_valid_credential_only() {
    let me = MySelf::new(8, Role::father);
    assert_eq!(authenticate(Credential::Valid(me)), Ok(me));
    assert_eq!(authenticate(Credential::Missing), Err(Rejection::NoCredential));
    assert_eq!(authenticate(Credential::Invalid), Err(Rejection::BadCredential));
}

#[test]
fn rejection_bodies() {
    assert_eq!(Rejection::NoCredential.body(), "Authentication required");
    assert_eq!(Rejection::BadCredential.body(), "Invalid authentication token");
}

#[test]
fn open_registers_the_identity() {
    let mut manager = ChatConnectionManager::new();
    manager.connect(1, 10);
    let me = MySelf::new(2, Role::student);
    let (connection, announcement) = Connection::open(me, 20, &mut manager);
    assert_eq!(connection, Connection { identity: me, connection: 20, is_open: true });
    assert_eq!(announcement.event, ServerMessage::UserOnline { user_id: 2 });
    assert_eq!(announcement.recipients, vec![Recipient { user_id: 1, connection: 10 }]);
    assert!(manager.is_user_online(2));
}

#[test]
fn text_frame_that_decodes_starts_a_pipeline() {
    let connection = Connection { identity: MySelf::new(2, Role::student), connection: 20, is_open: true };
    let frame = Inbound::Text(r#"{"type":"TypingStart","chat_id":7}"#.to_string());
    match connection.on_frame(frame, 1_000) {
        Reaction::Serve { pipeline, step } => {
            assert_eq!(pipeline.sender, 2);
            assert_eq!(pipeline.action, ClientMessage::TypingStart { chat_id: 7 });
            assert_eq!(pipeline.now, 1_000);
            assert_eq!(pipeline.stage, Stage::Authorizing);
            assert_eq!(pipeline.chat_id, 7);
            assert_eq!(step, Step::Ask(StoreRequest::IsParticipant { chat_id: 7, user_id: 2 }));
        }
        other => panic!("unexpected reaction {:?}", other),
    }
}

#[test]
fn ping_frame_of_the_protocol_is_answered_with_pong() {
    let connection = Connection { identity: MySelf::new(2, Role::student), connection: 20, is_open: true };
    match connection.on_frame(Inbound::Text(r#"{"type":"Ping"}"#.to_string()), 0) {
        Reaction::Serve { pipeline, step } => {
            assert_eq!(pipeline.stage, Stage::Done);
            assert!(pipeline.is_finished());
            assert_eq!(step, Step::Reply(ServerMessage::Pong));
        }
        other => panic!("unexpected reaction {:?}", other),
    }
}

#[test]
fn malformed_text_is_answered_with_an_error() {
    let connection = Connection { identity: MySelf::new(2, Role::student), connection: 20, is_open: true };
    let expected = Reaction::Refuse {
        failure: Failure::Malformed,
        event: ServerMessage::Error { message: "Invalid message format".to_string() },
    };
    assert_eq!(connection.on_frame(Inbound::Text("not json".to_string()), 0), expected);
    assert_eq!(
        connection.on_frame(Inbound::Text(r#"{"type":"Teleport"}"#.to_string()), 0),
        expected
    );
    assert_eq!(
        connection.on_frame(Inbound::Text(r#"{"type":"SendMessage","chat_id":7}"#.to_string()), 0),
        expected
    );
}

#[test]
fn transport_frames() {
    let connection = Connection { identity: MySelf::new(2, Role::student), connection: 20, is_open: true };
    assert_eq!(connection.on_frame(Inbound::Ping(vec![1, 2, 3]), 0), Reaction::Pong(vec![1, 2, 3]));
    assert_eq!(connection.on_frame(Inbound::Ping(vec![]), 0), Reaction::Pong(vec![]));
    assert_eq!(connection.on_frame(Inbound::Pong, 0), Reaction::Ignore);
    assert_eq!(connection.on_frame(Inbound::Other, 0), Reaction::Ignore);
    assert_eq!(connection.on_frame(Inbound::Close, 0), Reaction::Hangup);
}

#[test]
fn closed_connection_ignores_frames() {
    let connection = Connection { identity: MySelf::new(2, Role::student), connection: 20, is_open: false };
    assert_eq!(connection.on_frame(Inbound::Text(r#"{"type":"Ping"}"#.to_string()), 0), Reaction::Ignore);
    assert_eq!(connection.on_frame(Inbound::Ping(vec![9]), 0), Reaction::Ignore);
    assert_eq!(connection.on_frame(Inbound::Close, 0), Reaction::Ignore);
}

#[test]
fn close_unregisters_once() {
    let mut manager = ChatConnectionManager::new();
    manager.connect(1, 10);
    let me = MySelf::new(2, Role::student);
    let (mut connection, _) = Connection::open(me, 20, &mut manager);
    let announcement = connection.close(&mut manager).expect("first close announces");
    assert_eq!(announcement.event, ServerMessage::UserOffline { user_id: 2 });
    assert_eq!(announcement.recipients, vec![Recipient { user_id: 1, connection: 10 }]);
    assert!(!manager.is_user_online(2));
    assert!(!connection.is_open);
    assert_eq!(connection.identity, me);
    manager.connect(2, 21);
    assert_eq!(connection.close(&mut manager), None);
    assert!(manager.is_user_online(2));
}
