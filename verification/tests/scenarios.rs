use chat_delivery::pipeline::{Failure, Pipeline, Stage, Step};
use chat_delivery::protocol::{ChatMessage, ClientMessage, PubUser, ServerMessage};
use chat_delivery::registry::{ChatConnectionManager, Dispatch, Recipient};
use chat_delivery::store::{ParticipantSet, StoreReply, StoreRequest};

const A: u64 = 1;
const B: u64 = 2;
const C: u64 = 3;

/// A store in memory that answers as the relational store would.
struct Store {
    participants: Vec<(u64, u64)>,
    messages: Vec<ChatMessage>,
    profiles: Vec<PubUser>,
    reads: Vec<(u64, u64, i64)>,
    typing: Vec<(u64, u64, i64)>,
    clock: i64,
    requests: Vec<StoreRequest>,
}

impl Store {
    fn new() -> Store {
        Store {
            participants: vec![(7, A), (7, B), (8, C)],
            messages: Vec::new(),
            profiles: vec![user(A, "ana"), user(B, "beto"), user(C, "caro")],
            reads: Vec::new(),
            typing: Vec::new(),
            clock: 1_000,
            requests: Vec::new(),
        }
    }

    fn members(&self, chat_id: u64) -> Vec<u64> {
        self.participants.iter().filter(|p| p.0 == chat_id).map(|p| p.1).collect()
    }

    fn serve(&mut self, request: StoreRequest) -> StoreReply {
        self.requests.push(request.clone());
        match request {
            StoreRequest::IsParticipant { chat_id, user_id } => {
                StoreReply::Flag(self.participants.contains(&(chat_id, user_id)))
            }
            StoreRequest::IsChatAdmin { .. } => StoreReply::Admin(None),
            StoreRequest::ChatOfMessage { message_id } => StoreReply::Chat(
                self.messages.iter().find(|m| m.id == message_id).map(|m| m.chat_id),
            ),
            StoreRequest::InsertMessage { chat_id, sender_id, message, reply_to_id } => {
                let id = self.messages.len() as u64 + 1;
                self.messages.push(ChatMessage {
                    id,
                    chat_id,
                    sender_id,
                    created_at: self.clock,
                    updated_at: self.clock,
                    type_message: "text".to_string(),
                    message,
                    file_path: None,
                    file_name: None,
                    file_size: None,
                    is_deleted: false,
                    reply_to_id,
                });
                StoreReply::Inserted(id)
            }
            StoreRequest::LoadMessage { message_id } => {
                let message = self.messages.iter().find(|m| m.id == message_id).cloned();
                match message {
                    Some(message) => {
                        let sender =
                            self.profiles.iter().find(|p| p.id == message.sender_id).cloned();
                        match sender {
                            Some(sender) => StoreReply::Message { message, sender },
                            None => StoreReply::Failed,
                        }
                    }
                    None => StoreReply::Failed,
                }
            }
            StoreRequest::UpsertTyping { chat_id, user_id, expires_at } => {
                self.typing.retain(|t| !(t.0 == chat_id && t.1 == user_id));
                self.typing.push((chat_id, user_id, expires_at));
                StoreReply::Done
            }
            StoreRequest::DeleteTyping { chat_id, user_id } => {
                self.typing.retain(|t| !(t.0 == chat_id && t.1 == user_id));
                StoreReply::Done
            }
            StoreRequest::DisplayName { user_id } => {
                match self.profiles.iter().find(|p| p.id == user_id) {
                    Some(p) => StoreReply::Name(p.full_name.clone().unwrap_or(p.email.clone())),
                    None => StoreReply::Failed,
                }
            }
            StoreRequest::UpsertRead { message_id, reader_id } => {
                self.reads.retain(|r| !(r.0 == message_id && r.1 == reader_id));
                self.reads.push((message_id, reader_id, self.clock));
                StoreReply::ReadAt(self.clock)
            }
            StoreRequest::Participants { chat_id } => {
                StoreReply::Members(ParticipantSet::from_rows(self.members(chat_id)))
            }
        }
    }
}

fn user(id: u64, name: &str) -> PubUser {
    PubUser {
        id,
        email: format!("{}@school.test", name),
        photo: None,
        course_id: None,
        full_name: Some(name.to_string()),
    }
}

/// What a frame came to: the frame for the sender, and the event with the
/// connections it goes to.
struct Outcome {
    stage: Stage,
    reply: Option<ServerMessage>,
    dispatch: Option<Dispatch>,
}

fn serve_frame(
    store: &mut Store,
    manager: &ChatConnectionManager,
    sender: u64,
    action: ClientMessage,
    now: i64,
) -> Outcome {
    let (mut state, mut step) = Pipeline::receive(sender, action, now).start();
    loop {
        match step {
            Step::Ask(request) => {
                let reply = store.serve(request);
                let next = state.advance(reply);
                state = next.0;
                step = next.1;
            }
            Step::Reply(event) => {
                return Outcome { stage: state.stage, reply: Some(event), dispatch: None };
            }
            Step::Deliver { event, participants, exclude } => {
                let dispatch = manager.send_to_chat(event, &participants, exclude);
                return Outcome { stage: state.stage, reply: None, dispatch: Some(dispatch) };
            }
            Step::Nothing => {
                return Outcome { stage: state.stage, reply: None, dispatch: None };
            }
        }
    }
}

fn everyone_online() -> ChatConnectionManager {
    let mut manager = ChatConnectionManager::new();
    manager.connect(A, 10);
    manager.connect(B, 20);
    manager.connect(C, 30);
    manager
}

fn send(chat_id: u64, text: &str) -> ClientMessage {
    ClientMessage::SendMessage { chat_id, message: text.to_string(), reply_to_id: None }
}

#[test]
fn outsider_gets_one_error_and_nothing_is_stored() {
    let mut store = Store::new();
    let manager = everyone_online();
    let outcome = serve_frame(&mut store, &manager, C, send(7, "hi"), 0);
    assert_eq!(outcome.stage, Stage::Failed(Failure::Unauthorized));
    assert_eq!(
        outcome.reply,
        Some(ServerMessage::Error { message: "You are not a participant of this chat".to_string() })
    );
    assert!(outcome.dispatch.is_none());
    assert!(store.messages.is_empty());
    assert_eq!(store.requests, vec![StoreRequest::IsParticipant { chat_id: 7, user_id: C }]);
}

#[test]
fn message_of_a_participant_reaches_the_participants_that_are_online() {
    let mut store = Store::new();
    let manager = everyone_online();
    let outcome = serve_frame(&mut store, &manager, A, send(7, "hi"), 0);
    assert_eq!(outcome.stage, Stage::Done);
    assert_eq!(outcome.reply, None);
    assert_eq!(store.messages.len(), 1);
    assert_eq!(store.messages[0].chat_id, 7);
    assert_eq!(store.messages[0].sender_id, A);
    assert_eq!(store.messages[0].message, "hi");
    let dispatch = outcome.dispatch.expect("the message goes out");
    assert_eq!(
        dispatch.event,
        ServerMessage::NewMessage {
            chat_id: 7,
            message: store.messages[0].clone(),
            sender: user(A, "ana"),
        }
    );
    assert_eq!(
        dispatch.recipients,
        vec![
            Recipient { user_id: A, connection: 10 },
            Recipient { user_id: B, connection: 20 },
        ]
    );
    assert!(dispatch.recipients.iter().all(|r| r.user_id != C));
}

#[test]
fn message_for_an_offline_participant_is_stored_and_not_delivered_to_it() {
    let mut store = Store::new();
    let mut manager = ChatConnectionManager::new();
    manager.connect(A, 10);
    let outcome = serve_frame(&mut store, &manager, A, send(7, "are you there?"), 0);
    assert_eq!(outcome.stage, Stage::Done);
    assert_eq!(outcome.reply, None);
    assert_eq!(store.messages.len(), 1);
    assert_eq!(store.messages[0].message, "are you there?");
    let dispatch = outcome.dispatch.expect("the message goes out");
    assert_eq!(dispatch.recipients, vec![Recipient { user_id: A, connection: 10 }]);
    let history: Vec<&ChatMessage> = store.messages.iter().filter(|m| m.chat_id == 7).collect();
    assert_eq!(history.len(), 1);
}

#[test]
fn typing_start_then_stop_is_seen_in_order_and_leaves_no_indicator() {
    let mut store = Store::new();
    let manager = everyone_online();
    let started =
        serve_frame(&mut store, &manager, A, ClientMessage::TypingStart { chat_id: 7 }, 1_000_000);
    assert_eq!(store.typing, vec![(7, A, 6_000_000)]);
    let stopped =
        serve_frame(&mut store, &manager, A, ClientMessage::TypingStop { chat_id: 7 }, 1_200_000);
    assert!(store.typing.is_empty());
    let started = started.dispatch.expect("typing is announced");
    let stopped = stopped.dispatch.expect("the end of typing is announced");
    assert_eq!(
        started.event,
        ServerMessage::UserTyping { chat_id: 7, user_id: A, user_name: "ana".to_string() }
    );
    assert_eq!(started.recipients, vec![Recipient { user_id: B, connection: 20 }]);
    assert_eq!(stopped.event, ServerMessage::UserStoppedTyping { chat_id: 7, user_id: A });
    assert_eq!(stopped.recipients, vec![Recipient { user_id: B, connection: 20 }]);
}

#[test]
fn typing_twice_keeps_one_indicator_with_the_later_expiry() {
    let mut store = Store::new();
    let manager = everyone_online();
    serve_frame(&mut store, &manager, A, ClientMessage::TypingStart { chat_id: 7 }, 1_000_000);
    serve_frame(&mut store, &manager, A, ClientMessage::TypingStart { chat_id: 7 }, 3_000_000);
    assert_eq!(store.typing, vec![(7, A, 8_000_000)]);
}

#[test]
fn typing_events_do_not_come_back_to_their_author() {
    let mut store = Store::new();
    let manager = everyone_online();
    for action in [ClientMessage::TypingStart { chat_id: 7 }, ClientMessage::TypingStop { chat_id: 7 }] {
        for author in [A, B] {
            let outcome = serve_frame(&mut store, &manager, author, action.clone(), 0);
            let dispatch = outcome.dispatch.expect("typing is announced");
            assert_eq!(dispatch.recipients.len(), 1);
            assert!(dispatch.recipients.iter().all(|r| r.user_id != author));
        }
    }
}

#[test]
fn typing_of_an_outsider_writes_nothing() {
    let mut store = Store::new();
    let manager = everyone_online();
    let outcome = serve_frame(&mut store, &manager, C, ClientMessage::TypingStart { chat_id: 7 }, 0);
    assert_eq!(outcome.stage, Stage::Failed(Failure::Unauthorized));
    assert!(outcome.dispatch.is_none());
    assert!(store.typing.is_empty());
}

#[test]
fn mark_as_read_twice_leaves_one_receipt_with_the_later_time() {
    let mut store = Store::new();
    let manager = everyone_online();
    serve_frame(&mut store, &manager, A, send(7, "hi"), 0);
    let message_id = store.messages[0].id;
    store.clock = 2_000;
    let first =
        serve_frame(&mut store, &manager, B, ClientMessage::MarkAsRead { message_id }, 0);
    assert_eq!(store.reads, vec![(message_id, B, 2_000)]);
    store.clock = 3_000;
    let second =
        serve_frame(&mut store, &manager, B, ClientMessage::MarkAsRead { message_id }, 0);
    assert_eq!(store.reads, vec![(message_id, B, 3_000)]);
    let first = first.dispatch.expect("the receipt is announced");
    let second = second.dispatch.expect("the receipt is announced");
    assert_eq!(
        first.event,
        ServerMessage::MessageRead { message_id, reader_id: B, read_at: 2_000 }
    );
    assert_eq!(
        second.event,
        ServerMessage::MessageRead { message_id, reader_id: B, read_at: 3_000 }
    );
    assert_eq!(second.recipients, vec![Recipient { user_id: A, connection: 10 }]);
}

#[test]
fn mark_as_read_by_an_outsider_leaves_no_receipt() {
    let mut store = Store::new();
    let manager = everyone_online();
    serve_frame(&mut store, &manager, A, send(7, "hi"), 0);
    let message_id = store.messages[0].id;
    let outcome = serve_frame(&mut store, &manager, C, ClientMessage::MarkAsRead { message_id }, 0);
    assert_eq!(outcome.stage, Stage::Failed(Failure::Unauthorized));
    assert!(store.reads.is_empty());
    assert!(outcome.dispatch.is_none());
}

#[test]
fn mark_as_read_of_an_unknown_message_is_an_error() {
    let mut store = Store::new();
    let manager = everyone_online();
    let outcome =
        serve_frame(&mut store, &manager, A, ClientMessage::MarkAsRead { message_id: 404 }, 0);
    assert_eq!(outcome.stage, Stage::Failed(Failure::NotFound));
    assert_eq!(
        outcome.reply,
        Some(ServerMessage::Error { message: "Message not found".to_string() })
    );
    assert!(store.reads.is_empty());
}

#[test]
fn message_of_a_sender_without_profile_is_stored_and_not_announced() {
    let mut store = Store::new();
    store.profiles.retain(|p| p.id != A);
    let manager = everyone_online();
    let outcome = serve_frame(&mut store, &manager, A, send(7, "hi"), 0);
    assert_eq!(outcome.stage, Stage::Failed(Failure::DeliveryGap));
    assert_eq!(outcome.reply, None);
    assert!(outcome.dispatch.is_none());
    assert_eq!(store.messages.len(), 1);
}

#[test]
fn disconnected_user_is_online_in_no_chat() {
    let mut store = Store::new();
    store.participants.push((8, B));
    let mut manager = everyone_online();
    let gone = manager.disconnect(B);
    assert_eq!(gone.event, ServerMessage::UserOffline { user_id: B });
    let mut seen: Vec<u64> = gone.recipients.iter().map(|r| r.user_id).collect();
    seen.sort();
    assert_eq!(seen, vec![A, C]);
    for chat_id in [7u64, 8u64] {
        let members = store.serve(StoreRequest::Participants { chat_id });
        assert!(!manager.get_online_users_in_chat(&members).contains(&B));
    }
    let outcome = serve_frame(&mut store, &manager, A, send(7, "hi"), 0);
    let dispatch = outcome.dispatch.expect("the message goes out");
    assert_eq!(dispatch.recipients, vec![Recipient { user_id: A, connection: 10 }]);
}

#[test]
fn frames_take_at_most_four_store_calls() {
    let manager = everyone_online();
    for action in [
        send(7, "hi"),
        ClientMessage::TypingStart { chat_id: 7 },
        ClientMessage::TypingStop { chat_id: 7 },
        ClientMessage::MarkAsRead { message_id: 1 },
        ClientMessage::JoinChat { chat_id: 7 },
        ClientMessage::Ping,
    ] {
        let mut store = Store::new();
        serve_frame(&mut store, &manager, A, send(7, "first"), 0);
        store.requests.clear();
        serve_frame(&mut store, &manager, A, action, 0);
        assert!(store.requests.len() <= 4);
    }
}
