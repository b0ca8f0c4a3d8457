//! Decoding of inbound frames: a frame is a JSON object whose member `type`
//! names the action and whose other members are the action's fields.

use crate::json::{
    as_str, as_u64, is_null, json_document, json_is_null, json_member, json_str, json_u64, member,
    parse_document,
};
use crate::protocol::{ClientMessage, ClientMessageView};
use crate::text::same_text;
use vstd::prelude::*;

verus! {

/// The members of a frame that the protocol reads, each as far as it has the
/// type that the protocol expects of it.
#[derive(Debug, Clone, PartialEq, Eq)]
pub struct RawFrame {
    /// The member `type`, where it is a string.
    pub kind: Option<String>,
    /// The member `chat_id`, where it is a number that fits in `u64`.
    pub chat_id: Option<u64>,
    /// The member `message`, where it is a string.
    pub message: Option<String>,
    /// The member `reply_to_id`: `Some(None)` where it is absent or null,
    /// `Some(Some(id))` where it is a number that fits in `u64`, and `None`
    /// where it is anything else.
    pub reply_to_id: Option<Option<u64>>,
    /// The member `message_id`, where it is a number that fits in `u64`.
    pub message_id: Option<u64>,
}

/// What a [`RawFrame`] holds, with its texts as character sequences.
pub struct RawFrameView {
    pub kind: Option<Seq<char>>,
    pub chat_id: Option<u64>,
    pub message: Option<Seq<char>>,
    pub reply_to_id: Option<Option<u64>>,
    pub message_id: Option<u64>,
}

impl View for RawFrame {
    type V = RawFrameView;

    open spec fn view(&self) -> RawFrameView {
        RawFrameView {
            kind: match self.kind {
                Some(kind) => Some(kind@),
                None => None,
            },
            chat_id: self.chat_id,
            message: match self.message {
                Some(message) => Some(message@),
                None => None,
            },
            reply_to_id: self.reply_to_id,
            message_id: self.message_id,
        }
    }
}

/// The action that a frame with these members stands for; `None` where the
/// kind is missing or unknown, or a field of the action is missing or of
/// another type. Members that the action does not have are passed over.
pub open spec fn frame_of(raw: RawFrameView) -> Option<ClientMessageView> {
    match raw.kind {
        None => None,
        Some(kind) => {
            if kind == "SendMessage"@ {
                match (raw.chat_id, raw.message, raw.reply_to_id) {
                    (Some(chat_id), Some(message), Some(reply_to_id)) => Some(
                        ClientMessageView::SendMessage { chat_id, message, reply_to_id },
                    ),
                    _ => None,
                }
            } else if kind == "TypingStart"@ {
                match raw.chat_id {
                    Some(chat_id) => Some(ClientMessageView::TypingStart { chat_id }),
                    None => None,
                }
            } else if kind == "TypingStop"@ {
                match raw.chat_id {
                    Some(chat_id) => Some(ClientMessageView::TypingStop { chat_id }),
                    None => None,
                }
            } else if kind == "MarkAsRead"@ {
                match raw.message_id {
                    Some(message_id) => Some(ClientMessageView::MarkAsRead { message_id }),
                    None => None,
                }
            } else if kind == "JoinChat"@ {
                match raw.chat_id {
                    Some(chat_id) => Some(ClientMessageView::JoinChat { chat_id }),
                    None => None,
                }
            } else if kind == "LeaveChat"@ {
                match raw.chat_id {
                    Some(chat_id) => Some(ClientMessageView::LeaveChat { chat_id }),
                    None => None,
                }
            } else if kind == "Ping"@ {
                Some(ClientMessageView::Ping)
            } else {
                None
            }
        },
    }
}

/// The member under a key, read as a number.
pub open spec fn number_at(doc: serde_json::Value, key: Seq<char>) -> Option<u64> {
    match json_member(doc, key) {
        Some(value) => json_u64(value),
        None => None,
    }
}

/// The member under a key, read as a string.
pub open spec fn text_at(doc: serde_json::Value, key: Seq<char>) -> Option<Seq<char>> {
    match json_member(doc, key) {
        Some(value) => json_str(value),
        None => None,
    }
}

/// The member under a key, read as a number that may be left out.
pub open spec fn optional_number_at(doc: serde_json::Value, key: Seq<char>) -> Option<
    Option<u64>,
> {
    match json_member(doc, key) {
        None => Some(None),
        Some(value) => if json_is_null(value) {
            Some(None)
        } else {
            match json_u64(value) {
                Some(number) => Some(Some(number)),
                None => None,
            }
        },
    }
}

/// The members of a document that the protocol reads.
pub open spec fn raw_frame_of(doc: serde_json::Value) -> RawFrameView {
    RawFrameView {
        kind: text_at(doc, "type"@),
        chat_id: number_at(doc, "chat_id"@),
        message: text_at(doc, "message"@),
        reply_to_id: optional_number_at(doc, "reply_to_id"@),
        message_id: number_at(doc, "message_id"@),
    }
}

/// The action that a text stands for: the text is JSON, and its members make
/// up a frame.
pub open spec fn decoded(text: Seq<char>) -> Option<ClientMessageView> {
    match json_document(text) {
        Some(doc) => frame_of(raw_frame_of(doc)),
        None => None,
    }
}

fn number_member(doc: &serde_json::Value, key: &str) -> (number: Option<u64>)
    ensures
        number == number_at(*doc, key@),
{
    match member(doc, key) {
        Some(value) => as_u64(value),
        None => None,
    }
}

fn text_member(doc: &serde_json::Value, key: &str) -> (text: Option<String>)
    ensures
        crate::protocol::text_of(text) == text_at(*doc, key@),
{
    match member(doc, key) {
        Some(value) => match as_str(value) {
            Some(text) => Some(text.to_owned()),
            None => None,
        },
        None => None,
    }
}

fn optional_number_member(doc: &serde_json::Value, key: &str) -> (number: Option<Option<u64>>)
    ensures
        number == optional_number_at(*doc, key@),
{
    match member(doc, key) {
        None => Some(None),
        Some(value) => {
            if is_null(value) {
                Some(None)
            } else {
                match as_u64(value) {
                    Some(number) => Some(Some(number)),
                    None => None,
                }
            }
        },
    }
}

impl RawFrame {
    /// Reads the members of a parsed document.
    pub(crate) fn read(doc: &serde_json::Value) -> (raw: Self)
        ensures
            raw@ == raw_frame_of(*doc),
    {
        RawFrame {
            kind: text_member(doc, "type"),
            chat_id: number_member(doc, "chat_id"),
            message: text_member(doc, "message"),
            reply_to_id: optional_number_member(doc, "reply_to_id"),
            message_id: number_member(doc, "message_id"),
        }
    }
}

impl ClientMessage {
    /// The action that the members of a frame stand for.
    pub fn from_raw(raw: RawFrame) -> (action: Option<Self>)
        ensures
            match action {
                Some(message) => frame_of(raw@) == Some(message@),
                None => frame_of(raw@) is None,
            },
    {
        let RawFrame { kind, chat_id, message, reply_to_id, message_id } = raw;
        let kind = match kind {
            Some(kind) => kind,
            None => {
                return None;
            },
        };
        if same_text(kind.as_str(), "SendMessage") {
            match (chat_id, message, reply_to_id) {
                (Some(chat_id), Some(message), Some(reply_to_id)) => Some(
                    ClientMessage::SendMessage { chat_id, message, reply_to_id },
                ),
                _ => None,
            }
        } else if same_text(kind.as_str(), "TypingStart") {
            match chat_id {
                Some(chat_id) => Some(ClientMessage::TypingStart { chat_id }),
                None => None,
            }
        } else if same_text(kind.as_str(), "TypingStop") {
            match chat_id {
                Some(chat_id) => Some(ClientMessage::TypingStop { chat_id }),
                None => None,
            }
        } else if same_text(kind.as_str(), "MarkAsRead") {
            match message_id {
                Some(message_id) => Some(ClientMessage::MarkAsRead { message_id }),
                None => None,
            }
        } else if same_text(kind.as_str(), "JoinChat") {
            match chat_id {
                Some(chat_id) => Some(ClientMessage::JoinChat { chat_id }),
                None => None,
            }
        } else if same_text(kind.as_str(), "LeaveChat") {
            match chat_id {
                Some(chat_id) => Some(ClientMessage::LeaveChat { chat_id }),
                None => None,
            }
        } else if same_text(kind.as_str(), "Ping") {
            Some(ClientMessage::Ping)
        } else {
            None
        }
    }

    /// Decodes the text of a frame.
    pub fn decode(text: &str) -> (action: Option<Self>)
        ensures
            match action {
                Some(message) => decoded(text@) == Some(message@),
                None => decoded(text@) is None,
            },
    {
        match parse_document(text) {
            Some(doc) => ClientMessage::from_raw(RawFrame::read(&doc)),
            None => None,
        }
    }
}

} // verus!
