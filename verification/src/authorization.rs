//! Authorization: whether an identity may act in a chat. The store holds the
//! answer; this module names the lookup and judges what comes back. Only a
//! plain yes authorizes: a lookup that failed, or an answer of another kind,
//! does not.

use crate::records::MySelf;
use crate::store::{StoreReply, StoreReplyView, StoreRequest, StoreRequestView};
use vstd::prelude::*;

verus! {

/// Whether an answer of the store says that the user participates.
pub open spec fn grants_participation(reply: StoreReplyView) -> bool {
    reply == StoreReplyView::Flag(true)
}

/// Whether an answer of the store says that the user administers the chat.
pub open spec fn grants_administration(reply: StoreReplyView) -> bool {
    reply == StoreReplyView::Admin(Some(true))
}

/// Whether an answer of the store says that the user participates.
pub fn is_participant(reply: &StoreReply) -> (granted: bool)
    ensures
        granted == grants_participation(reply@),
{
    match reply {
        StoreReply::Flag(flag) => *flag,
        _ => false,
    }
}

impl MySelf {
    /// The lookup that tells whether this identity participates in a chat.
    pub fn participant_lookup(&self, chat_id: u64) -> (request: StoreRequest)
        ensures
            request@ == (StoreRequestView::IsParticipant { chat_id, user_id: self.id }),
    {
        StoreRequest::IsParticipant { chat_id, user_id: self.id }
    }

    /// The lookup that tells whether this identity administers a chat.
    pub fn admin_lookup(&self, chat_id: u64) -> (request: StoreRequest)
        ensures
            request@ == (StoreRequestView::IsChatAdmin { chat_id, user_id: self.id }),
    {
        StoreRequest::IsChatAdmin { chat_id, user_id: self.id }
    }

    /// Whether this identity is a participant of the chat, by the store's
    /// answer to `participant_lookup`.
    pub fn is_chat_participant(&self, reply: &StoreReply) -> (granted: bool)
        ensures
            granted == grants_participation(reply@),
    {
        is_participant(reply)
    }

    /// Whether this identity is an administrator of the chat, by the store's
    /// answer to `admin_lookup`. A user without a row in the chat is none.
    pub fn is_chat_admin(&self, reply: &StoreReply) -> (granted: bool)
        ensures
            granted == grants_administration(reply@),
    {
        match reply {
            StoreReply::Admin(Some(mark)) => *mark,
            _ => false,
        }
    }
}

} // verus!
