//! The frames exchanged over a live connection: what a client may ask for and
//! what the server may announce.

use vstd::prelude::*;

verus! {

/// Microseconds since the Unix epoch.
pub type Timestamp = i64;

/// The characters of an optional text.
pub open spec fn text_of(text: Option<String>) -> Option<Seq<char>> {
    match text {
        Some(s) => Some(s@),
        None => None,
    }
}

/// A stored chat message.
#[derive(Debug, Clone, PartialEq, Eq)]
pub struct ChatMessage {
    pub id: u64,
    pub chat_id: u64,
    pub sender_id: u64,
    pub created_at: Timestamp,
    pub updated_at: Timestamp,
    pub type_message: String,
    pub message: String,
    pub file_path: Option<String>,
    pub file_name: Option<String>,
    pub file_size: Option<u32>,
    pub is_deleted: bool,
    pub reply_to_id: Option<u64>,
}

/// What a [`ChatMessage`] holds, with its texts as character sequences.
pub struct ChatMessageView {
    pub id: u64,
    pub chat_id: u64,
    pub sender_id: u64,
    pub created_at: Timestamp,
    pub updated_at: Timestamp,
    pub type_message: Seq<char>,
    pub message: Seq<char>,
    pub file_path: Option<Seq<char>>,
    pub file_name: Option<Seq<char>>,
    pub file_size: Option<u32>,
    pub is_deleted: bool,
    pub reply_to_id: Option<u64>,
}

impl View for ChatMessage {
    type V = ChatMessageView;

    open spec fn view(&self) -> ChatMessageView {
        ChatMessageView {
            id: self.id,
            chat_id: self.chat_id,
            sender_id: self.sender_id,
            created_at: self.created_at,
            updated_at: self.updated_at,
            type_message: self.type_message@,
            message: self.message@,
            file_path: text_of(self.file_path),
            file_name: text_of(self.file_name),
            file_size: self.file_size,
            is_deleted: self.is_deleted,
            reply_to_id: self.reply_to_id,
        }
    }
}

/// The public profile of a user, as shown next to a message.
#[derive(Debug, Clone, PartialEq, Eq)]
pub struct PubUser {
    pub id: u64,
    pub email: String,
    pub photo: Option<String>,
    pub course_id: Option<u64>,
    pub full_name: Option<String>,
}

/// What a [`PubUser`] holds, with its texts as character sequences.
pub struct PubUserView {
    pub id: u64,
    pub email: Seq<char>,
    pub photo: Option<Seq<char>>,
    pub course_id: Option<u64>,
    pub full_name: Option<Seq<char>>,
}

impl View for PubUser {
    type V = PubUserView;

    open spec fn view(&self) -> PubUserView {
        PubUserView {
            id: self.id,
            email: self.email@,
            photo: text_of(self.photo),
            course_id: self.course_id,
            full_name: text_of(self.full_name),
        }
    }
}

/// Messages sent from client to server.
#[derive(Debug, Clone, PartialEq, Eq)]
pub enum ClientMessage {
    /// Send a text message to a chat.
    SendMessage { chat_id: u64, message: String, reply_to_id: Option<u64> },
    /// The user started typing in a chat.
    TypingStart { chat_id: u64 },
    /// The user stopped typing in a chat.
    TypingStop { chat_id: u64 },
    /// Mark a message as read.
    MarkAsRead { message_id: u64 },
    /// Join a chat room; a hint with no effect on delivery.
    JoinChat { chat_id: u64 },
    /// Leave a chat room; a hint with no effect on delivery.
    LeaveChat { chat_id: u64 },
    /// Ask for a `Pong`.
    Ping,
}

/// What a [`ClientMessage`] holds, with its text as a character sequence.
pub enum ClientMessageView {
    SendMessage { chat_id: u64, message: Seq<char>, reply_to_id: Option<u64> },
    TypingStart { chat_id: u64 },
    TypingStop { chat_id: u64 },
    MarkAsRead { message_id: u64 },
    JoinChat { chat_id: u64 },
    LeaveChat { chat_id: u64 },
    Ping,
}

impl View for ClientMessage {
    type V = ClientMessageView;

    open spec fn view(&self) -> ClientMessageView {
        match *self {
            ClientMessage::SendMessage { chat_id, message, reply_to_id } => {
                ClientMessageView::SendMessage { chat_id, message: message@, reply_to_id }
            },
            ClientMessage::TypingStart { chat_id } => ClientMessageView::TypingStart { chat_id },
            ClientMessage::TypingStop { chat_id } => ClientMessageView::TypingStop { chat_id },
            ClientMessage::MarkAsRead { message_id } => ClientMessageView::MarkAsRead {
                message_id,
            },
            ClientMessage::JoinChat { chat_id } => ClientMessageView::JoinChat { chat_id },
            ClientMessage::LeaveChat { chat_id } => ClientMessageView::LeaveChat { chat_id },
            ClientMessage::Ping => ClientMessageView::Ping,
        }
    }
}

/// Messages sent from server to client.
#[derive(Debug, Clone, PartialEq, Eq)]
pub enum ServerMessage {
    /// A new message arrived in a chat.
    NewMessage { chat_id: u64, message: ChatMessage, sender: PubUser },
    /// A message was read by a user.
    MessageRead { message_id: u64, reader_id: u64, read_at: Timestamp },
    /// A user is typing in a chat.
    UserTyping { chat_id: u64, user_id: u64, user_name: String },
    /// A user stopped typing in a chat.
    UserStoppedTyping { chat_id: u64, user_id: u64 },
    /// A user came online.
    UserOnline { user_id: u64 },
    /// A user went offline.
    UserOffline { user_id: u64 },
    /// The frame of the receiving connection could not be served.
    Error { message: String },
    /// The answer to `Ping`.
    Pong,
}

/// What a [`ServerMessage`] holds, with its texts as character sequences.
pub enum ServerMessageView {
    NewMessage { chat_id: u64, message: ChatMessageView, sender: PubUserView },
    MessageRead { message_id: u64, reader_id: u64, read_at: Timestamp },
    UserTyping { chat_id: u64, user_id: u64, user_name: Seq<char> },
    UserStoppedTyping { chat_id: u64, user_id: u64 },
    UserOnline { user_id: u64 },
    UserOffline { user_id: u64 },
    Error { message: Seq<char> },
    Pong,
}

impl View for ServerMessage {
    type V = ServerMessageView;

    open spec fn view(&self) -> ServerMessageView {
        match *self {
            ServerMessage::NewMessage { chat_id, message, sender } => {
                ServerMessageView::NewMessage { chat_id, message: message@, sender: sender@ }
            },
            ServerMessage::MessageRead { message_id, reader_id, read_at } => {
                ServerMessageView::MessageRead { message_id, reader_id, read_at }
            },
            ServerMessage::UserTyping { chat_id, user_id, user_name } => {
                ServerMessageView::UserTyping { chat_id, user_id, user_name: user_name@ }
            },
            ServerMessage::UserStoppedTyping { chat_id, user_id } => {
                ServerMessageView::UserStoppedTyping { chat_id, user_id }
            },
            ServerMessage::UserOnline { user_id } => ServerMessageView::UserOnline { user_id },
            ServerMessage::UserOffline { user_id } => ServerMessageView::UserOffline { user_id },
            ServerMessage::Error { message } => ServerMessageView::Error { message: message@ },
            ServerMessage::Pong => ServerMessageView::Pong,
        }
    }
}

impl ServerMessage {
    /// An error frame with the given text.
    pub fn error(msg: &str) -> (event: Self)
        ensures
            event@ == (ServerMessageView::Error { message: msg@ }),
    {
        ServerMessage::Error { message: msg.to_owned() }
    }
}

} // verus!
