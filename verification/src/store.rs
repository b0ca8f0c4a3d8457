//! The calls that the pipeline asks of the relational store, and what the
//! store may answer. The library performs none of them: it says which call
//! comes next and decides on the answer.

use crate::protocol::{ChatMessage, ChatMessageView, PubUser, PubUserView, Timestamp};
use vstd::prelude::*;

verus! {

/// A sequence without its repetitions: of each value the first occurrence
/// stays, in its place among the others.
pub open spec fn distinct(rows: Seq<u64>) -> Seq<u64>
    decreases rows.len(),
{
    if rows.len() == 0 {
        Seq::empty()
    } else {
        let front = distinct(rows.drop_last());
        if front.contains(rows.last()) {
            front
        } else {
            front.push(rows.last())
        }
    }
}

/// `distinct` keeps exactly the values of its argument, each once.
pub proof fn lemma_distinct(rows: Seq<u64>)
    ensures
        distinct(rows).no_duplicates(),
        distinct(rows).len() <= rows.len(),
        forall|id: u64| distinct(rows).contains(id) <==> rows.contains(id),
    decreases rows.len(),
{
    if rows.len() > 0 {
        let front_rows = rows.drop_last();
        let front = distinct(front_rows);
        lemma_distinct(front_rows);
        assert forall|id: u64| distinct(rows).contains(id) <==> rows.contains(id) by {
            if rows.contains(id) {
                let i = choose|i: int| 0 <= i < rows.len() && rows[i] == id;
                if i < rows.len() - 1 {
                    assert(front_rows[i] == id);
                    assert(front_rows.contains(id));
                    assert(front.contains(id));
                    let j = choose|j: int| 0 <= j < front.len() && front[j] == id;
                    assert(distinct(rows)[j] == id);
                } else {
                    assert(id == rows.last());
                    if !front.contains(id) {
                        assert(distinct(rows)[front.len() as int] == id);
                    }
                }
            }
            if distinct(rows).contains(id) {
                let j = choose|j: int| 0 <= j < distinct(rows).len() && distinct(rows)[j] == id;
                if j < front.len() {
                    assert(front[j] == id);
                    assert(front.contains(id));
                    assert(front_rows.contains(id));
                    let i = choose|i: int| 0 <= i < front_rows.len() && front_rows[i] == id;
                    assert(rows[i] == id);
                } else {
                    assert(rows[rows.len() - 1] == id);
                }
            }
        }
    }
}

/// A sequence without repetitions is its own `distinct`.
pub proof fn lemma_distinct_of_distinct(rows: Seq<u64>)
    requires
        rows.no_duplicates(),
    ensures
        distinct(rows) == rows,
    decreases rows.len(),
{
    if rows.len() > 0 {
        let front_rows = rows.drop_last();
        lemma_distinct_of_distinct(front_rows);
        if front_rows.contains(rows.last()) {
            let i = choose|i: int| 0 <= i < front_rows.len() && front_rows[i] == rows.last();
            assert(rows[i] == rows[rows.len() - 1]);
        }
        assert(front_rows.push(rows.last()) =~= rows);
    }
}

/// The participants of one chat at the moment the store was asked: user
/// identifiers in the store's order, none of them twice.
#[derive(Debug, PartialEq, Eq)]
pub struct ParticipantSet {
    ids: Vec<u64>,
}

impl Clone for ParticipantSet {
    fn clone(&self) -> (copy: Self)
        ensures
            copy@ == self@,
    {
        proof {
            use_type_invariant(self);
        }
        ParticipantSet { ids: self.ids.clone() }
    }
}

impl View for ParticipantSet {
    type V = Seq<u64>;

    closed spec fn view(&self) -> Seq<u64> {
        self.ids@
    }
}

impl ParticipantSet {
    /// No participant occurs twice.
    #[verifier::type_invariant]
    pub closed spec fn wf(&self) -> bool {
        self.ids@.no_duplicates()
    }

    /// What `wf` says of the view.
    pub proof fn lemma_wf(&self)
        ensures
            self.wf() <==> self@.no_duplicates(),
    {
    }

    /// The set of no participants.
    pub fn new() -> (set: Self)
        ensures
            set@ == Seq::<u64>::empty(),
            set.wf(),
    {
        ParticipantSet { ids: Vec::new() }
    }

    /// The participants named by the rows of the store's answer; a user that
    /// the rows name more than once is a participant once.
    pub fn from_rows(rows: Vec<u64>) -> (set: Self)
        ensures
            set@ == distinct(rows@),
            rows@.no_duplicates() ==> set@ == rows@,
            set.wf(),
    {
        let mut ids: Vec<u64> = Vec::new();
        let mut i: usize = 0;
        while i < rows.len()
            invariant
                i <= rows.len(),
                ids@ == distinct(rows@.take(i as int)),
            decreases rows.len() - i,
        {
            let id = rows[i];
            let mut seen = false;
            let mut j: usize = 0;
            while j < ids.len()
                invariant
                    j <= ids.len(),
                    seen <==> exists|k: int| 0 <= k < j && ids@[k] == id,
                decreases ids.len() - j,
            {
                if ids[j] == id {
                    seen = true;
                }
                j += 1;
            }
            proof {
                let next = rows@.take(i as int + 1);
                assert(next.drop_last() =~= rows@.take(i as int));
                assert(next.last() == id);
                assert(seen <==> ids@.contains(id));
            }
            if !seen {
                ids.push(id);
            }
            i += 1;
        }
        proof {
            assert(rows@.take(rows.len() as int) =~= rows@);
            lemma_distinct(rows@);
            if rows@.no_duplicates() {
                lemma_distinct_of_distinct(rows@);
            }
        }
        ParticipantSet { ids }
    }

    /// How many participants there are.
    pub fn len(&self) -> (n: usize)
        ensures
            n == self@.len(),
    {
        self.ids.len()
    }

    /// The participant at a position.
    pub fn get(&self, i: usize) -> (id: u64)
        requires
            i < self@.len(),
        ensures
            id == self@[i as int],
    {
        self.ids[i]
    }

    /// Whether a user is among the participants.
    pub fn contains(&self, user_id: u64) -> (found: bool)
        ensures
            found == self@.contains(user_id),
    {
        let mut i: usize = 0;
        while i < self.ids.len()
            invariant
                i <= self.ids.len(),
                forall|k: int| 0 <= k < i ==> self.ids@[k] != user_id,
            decreases self.ids.len() - i,
        {
            if self.ids[i] == user_id {
                return true;
            }
            i += 1;
        }
        false
    }

    /// The participants, in the store's order.
    pub fn ids(&self) -> (ids: &Vec<u64>)
        ensures
            ids@ == self@,
    {
        &self.ids
    }

    /// The participants as a vector, in the store's order.
    pub fn to_vec(&self) -> (ids: Vec<u64>)
        ensures
            ids@ == self@,
    {
        self.ids.clone()
    }
}

/// A call on the relational store.
#[derive(Debug, Clone, PartialEq, Eq)]
pub enum StoreRequest {
    /// Is the user a participant of the chat?
    IsParticipant { chat_id: u64, user_id: u64 },
    /// Is the user an administrator of the chat?
    IsChatAdmin { chat_id: u64, user_id: u64 },
    /// To which chat does the message belong?
    ChatOfMessage { message_id: u64 },
    /// Insert a text message; the store generates its identifier.
    InsertMessage { chat_id: u64, sender_id: u64, message: String, reply_to_id: Option<u64> },
    /// Read a message back, joined with its sender's public profile.
    LoadMessage { message_id: u64 },
    /// Insert the typing indicator of the user in the chat, or refresh it.
    UpsertTyping { chat_id: u64, user_id: u64, expires_at: Timestamp },
    /// Delete the typing indicator of the user in the chat.
    DeleteTyping { chat_id: u64, user_id: u64 },
    /// The name under which the user is shown.
    DisplayName { user_id: u64 },
    /// Insert the read receipt of the reader for the message, or refresh it.
    UpsertRead { message_id: u64, reader_id: u64 },
    /// The participants of the chat.
    Participants { chat_id: u64 },
}

/// What a [`StoreRequest`] holds, with its text as a character sequence.
pub enum StoreRequestView {
    IsParticipant { chat_id: u64, user_id: u64 },
    IsChatAdmin { chat_id: u64, user_id: u64 },
    ChatOfMessage { message_id: u64 },
    InsertMessage { chat_id: u64, sender_id: u64, message: Seq<char>, reply_to_id: Option<u64> },
    LoadMessage { message_id: u64 },
    UpsertTyping { chat_id: u64, user_id: u64, expires_at: Timestamp },
    DeleteTyping { chat_id: u64, user_id: u64 },
    DisplayName { user_id: u64 },
    UpsertRead { message_id: u64, reader_id: u64 },
    Participants { chat_id: u64 },
}

impl View for StoreRequest {
    type V = StoreRequestView;

    open spec fn view(&self) -> StoreRequestView {
        match *self {
            StoreRequest::IsParticipant { chat_id, user_id } => StoreRequestView::IsParticipant {
                chat_id,
                user_id,
            },
            StoreRequest::IsChatAdmin { chat_id, user_id } => StoreRequestView::IsChatAdmin {
                chat_id,
                user_id,
            },
            StoreRequest::ChatOfMessage { message_id } => StoreRequestView::ChatOfMessage {
                message_id,
            },
            StoreRequest::InsertMessage { chat_id, sender_id, message, reply_to_id } => {
                StoreRequestView::InsertMessage {
                    chat_id,
                    sender_id,
                    message: message@,
                    reply_to_id,
                }
            },
            StoreRequest::LoadMessage { message_id } => StoreRequestView::LoadMessage {
                message_id,
            },
            StoreRequest::UpsertTyping { chat_id, user_id, expires_at } => {
                StoreRequestView::UpsertTyping { chat_id, user_id, expires_at }
            },
            StoreRequest::DeleteTyping { chat_id, user_id } => StoreRequestView::DeleteTyping {
                chat_id,
                user_id,
            },
            StoreRequest::DisplayName { user_id } => StoreRequestView::DisplayName { user_id },
            StoreRequest::UpsertRead { message_id, reader_id } => StoreRequestView::UpsertRead {
                message_id,
                reader_id,
            },
            StoreRequest::Participants { chat_id } => StoreRequestView::Participants { chat_id },
        }
    }
}

/// The answer of the store to a [`StoreRequest`].
#[derive(Debug, Clone, PartialEq, Eq)]
pub enum StoreReply {
    /// The call failed.
    Failed,
    /// A write that returns nothing was done.
    Done,
    /// The answer to `IsParticipant`.
    Flag(bool),
    /// The answer to `IsChatAdmin`: the administrator mark of the user in the
    /// chat, or `None` where the user is no participant of it.
    Admin(Option<bool>),
    /// The answer to `ChatOfMessage`: the chat, or `None` where there is no
    /// such message.
    Chat(Option<u64>),
    /// The answer to `InsertMessage`: the identifier of the new message.
    Inserted(u64),
    /// The answer to `LoadMessage`.
    Message { message: ChatMessage, sender: PubUser },
    /// The answer to `DisplayName`.
    Name(String),
    /// The answer to `UpsertRead`: the time now recorded for the receipt.
    ReadAt(Timestamp),
    /// The answer to `Participants`.
    Members(ParticipantSet),
}

/// What a [`StoreReply`] holds, with its texts as character sequences.
pub enum StoreReplyView {
    Failed,
    Done,
    Flag(bool),
    Admin(Option<bool>),
    Chat(Option<u64>),
    Inserted(u64),
    Message { message: ChatMessageView, sender: PubUserView },
    Name(Seq<char>),
    ReadAt(Timestamp),
    Members(Seq<u64>),
}

impl View for StoreReply {
    type V = StoreReplyView;

    open spec fn view(&self) -> StoreReplyView {
        match *self {
            StoreReply::Failed => StoreReplyView::Failed,
            StoreReply::Done => StoreReplyView::Done,
            StoreReply::Flag(flag) => StoreReplyView::Flag(flag),
            StoreReply::Admin(mark) => StoreReplyView::Admin(mark),
            StoreReply::Chat(chat) => StoreReplyView::Chat(chat),
            StoreReply::Inserted(id) => StoreReplyView::Inserted(id),
            StoreReply::Message { message, sender } => StoreReplyView::Message {
                message: message@,
                sender: sender@,
            },
            StoreReply::Name(name) => StoreReplyView::Name(name@),
            StoreReply::ReadAt(at) => StoreReplyView::ReadAt(at),
            StoreReply::Members(members) => StoreReplyView::Members(members@),
        }
    }
}

} // verus!
