//! A model of the relational store, and what follows for a whole frame.
//!
//! The library never calls the store. To say what serving a frame comes to,
//! this module states how a store that keeps its word answers each request,
//! lets it answer the requests of a pipeline one after the other, and looks
//! at the store and at the deliveries that are left when the pipeline has
//! ended.

use crate::pipeline::{
    not_participant_text, received, start, step, typing_expiry, PipelineView, StepView,
};
use crate::protocol::{
    ChatMessageView, ClientMessageView, PubUserView, ServerMessageView, Timestamp,
};
use crate::registry::{
    chat_recipients, chat_targets, is_target, law_chat_delivery_is_exact,
    law_excluded_user_is_skipped, reaches_each_once, Recipient,
};
use crate::store::{StoreReplyView, StoreRequestView};
use vstd::prelude::*;

verus! {

/// The rows of the store that the pipeline reads and writes.
pub struct StoreModel {
    /// The participants of each chat, none of them twice.
    pub members: Map<u64, Seq<u64>>,
    /// The participants that administer their chat, as pairs of chat and
    /// user.
    pub admins: Set<(u64, u64)>,
    /// The messages, by their identifiers.
    pub messages: Map<u64, ChatMessageView>,
    /// The public profiles of the users.
    pub profiles: Map<u64, PubUserView>,
    /// The time of the read receipt of each pair of message and reader.
    pub reads: Map<(u64, u64), Timestamp>,
    /// The expiry of the typing indicator of each pair of chat and user.
    pub typing: Map<(u64, u64), Timestamp>,
    /// The store's clock.
    pub clock: Timestamp,
}

impl StoreModel {
    /// The store is consistent: no chat names a participant twice, and each
    /// message is filed under its own identifier.
    pub open spec fn wf(self) -> bool {
        &&& forall|chat_id: u64| #[trigger]
            self.members.contains_key(chat_id) ==> self.members[chat_id].no_duplicates()
        &&& forall|id: u64| #[trigger] self.messages.contains_key(id) ==> self.messages[id].id == id
    }

    /// The participants of a chat; none for a chat that does not exist.
    pub open spec fn participants(self, chat_id: u64) -> Seq<u64> {
        if self.members.contains_key(chat_id) {
            self.members[chat_id]
        } else {
            Seq::empty()
        }
    }

    /// Whether a user participates in a chat.
    pub open spec fn is_member(self, chat_id: u64, user_id: u64) -> bool {
        self.participants(chat_id).contains(user_id)
    }

    /// Whether there is an identifier left for a new message.
    pub open spec fn has_room(self) -> bool {
        exists|id: u64| !self.messages.contains_key(id)
    }

    /// The identifier that the next message gets.
    pub open spec fn fresh_id(self) -> u64 {
        choose|id: u64| !self.messages.contains_key(id)
    }

    /// The row that an insert writes.
    pub open spec fn new_row(
        self,
        chat_id: u64,
        sender_id: u64,
        message: Seq<char>,
        reply_to_id: Option<u64>,
    ) -> ChatMessageView {
        ChatMessageView {
            id: self.fresh_id(),
            chat_id,
            sender_id,
            created_at: self.clock,
            updated_at: self.clock,
            type_message: "text"@,
            message,
            file_path: None,
            file_name: None,
            file_size: None,
            is_deleted: false,
            reply_to_id,
        }
    }

    /// The name under which a user is shown: the full name, or the address
    /// where the profile has no name.
    pub open spec fn display_name(self, user_id: u64) -> Seq<char> {
        match self.profiles[user_id].full_name {
            Some(name) => name,
            None => self.profiles[user_id].email,
        }
    }

    /// The same store at another time.
    pub open spec fn at(self, clock: Timestamp) -> StoreModel {
        StoreModel { clock, ..self }
    }

    /// How the store answers a request, and what it holds afterwards.
    pub open spec fn serve(self, request: StoreRequestView) -> (StoreModel, StoreReplyView) {
        match request {
            StoreRequestView::IsParticipant { chat_id, user_id } => (
                self,
                StoreReplyView::Flag(self.is_member(chat_id, user_id)),
            ),
            StoreRequestView::IsChatAdmin { chat_id, user_id } => (
                self,
                StoreReplyView::Admin(
                    if self.is_member(chat_id, user_id) {
                        Some(self.admins.contains((chat_id, user_id)))
                    } else {
                        None
                    },
                ),
            ),
            StoreRequestView::ChatOfMessage { message_id } => (
                self,
                StoreReplyView::Chat(
                    if self.messages.contains_key(message_id) {
                        Some(self.messages[message_id].chat_id)
                    } else {
                        None
                    },
                ),
            ),
            StoreRequestView::InsertMessage { chat_id, sender_id, message, reply_to_id } => {
                if self.has_room() {
                    let row = self.new_row(chat_id, sender_id, message, reply_to_id);
                    (
                        StoreModel { messages: self.messages.insert(row.id, row), ..self },
                        StoreReplyView::Inserted(row.id),
                    )
                } else {
                    (self, StoreReplyView::Failed)
                }
            },
            StoreRequestView::LoadMessage { message_id } => (
                self,
                if self.messages.contains_key(message_id) && self.profiles.contains_key(
                    self.messages[message_id].sender_id,
                ) {
                    StoreReplyView::Message {
                        message: self.messages[message_id],
                        sender: self.profiles[self.messages[message_id].sender_id],
                    }
                } else {
                    StoreReplyView::Failed
                },
            ),
            StoreRequestView::UpsertTyping { chat_id, user_id, expires_at } => (
                StoreModel { typing: self.typing.insert((chat_id, user_id), expires_at), ..self },
                StoreReplyView::Done,
            ),
            StoreRequestView::DeleteTyping { chat_id, user_id } => (
                StoreModel { typing: self.typing.remove((chat_id, user_id)), ..self },
                StoreReplyView::Done,
            ),
            StoreRequestView::DisplayName { user_id } => (
                self,
                if self.profiles.contains_key(user_id) {
                    StoreReplyView::Name(self.display_name(user_id))
                } else {
                    StoreReplyView::Failed
                },
            ),
            StoreRequestView::UpsertRead { message_id, reader_id } => (
                StoreModel {
                    reads: self.reads.insert((message_id, reader_id), self.clock),
                    ..self
                },
                StoreReplyView::ReadAt(self.clock),
            ),
            StoreRequestView::Participants { chat_id } => (
                self,
                StoreReplyView::Members(self.participants(chat_id)),
            ),
        }
    }
}

/// A pipeline on its way, with the store that answers it.
pub struct Run {
    pub state: PipelineView,
    pub step: StepView,
    pub store: StoreModel,
}

/// One turn: the store answers the request that stands out, and the pipeline
/// decides on the answer. A pipeline that has ended stays as it is.
pub open spec fn turn(run: Run) -> Run {
    match run.step {
        StepView::Ask(request) => {
            let answered = run.store.serve(request);
            let decided = step(run.state, answered.1);
            Run { state: decided.0, step: decided.1, store: answered.0 }
        },
        _ => run,
    }
}

/// A frame served against the store: the first decision, and as many turns
/// as the longest pipeline takes.
pub open spec fn served(
    store: StoreModel,
    sender: u64,
    action: ClientMessageView,
    now: Timestamp,
) -> Run {
    let begun = start(received(sender, action, now));
    turn(turn(turn(turn(Run { state: begun.0, step: begun.1, store }))))
}

/// The frame that the originating connection gets at the end of a run.
pub open spec fn answer(run: Run) -> Option<ServerMessageView> {
    match run.step {
        StepView::Reply(event) => Some(event),
        _ => None,
    }
}

/// The event that goes out to a chat at the end of a run.
pub open spec fn announced(run: Run) -> Option<ServerMessageView> {
    match run.step {
        StepView::Deliver { event, .. } => Some(event),
        _ => None,
    }
}

/// The connections that the event of a run is written to, given who is
/// registered.
pub open spec fn deliveries(run: Run, online: Map<u64, u64>) -> Seq<Recipient> {
    match run.step {
        StepView::Deliver { participants, exclude, .. } => chat_recipients(
            online,
            participants,
            exclude,
        ),
        _ => Seq::empty(),
    }
}

/// Every frame is served within four calls on the store: after them the
/// pipeline has ended, whatever the store holds.
pub proof fn law_every_frame_ends(
    store: StoreModel,
    sender: u64,
    action: ClientMessageView,
    now: Timestamp,
)
    ensures
        !(served(store, sender, action, now).step is Ask),
        served(store, sender, action, now).state.stage is Done || served(
            store,
            sender,
            action,
            now,
        ).state.stage is Failed,
{
}

/// A sender that is no participant of the chat gets one error for its
/// `SendMessage` and nothing else happens: the store is as before, and no
/// event goes out.
pub proof fn law_outsider_is_refused(
    store: StoreModel,
    online: Map<u64, u64>,
    sender: u64,
    chat_id: u64,
    message: Seq<char>,
    reply_to_id: Option<u64>,
    now: Timestamp,
)
    requires
        !store.is_member(chat_id, sender),
    ensures
        ({
            let run = served(
                store,
                sender,
                ClientMessageView::SendMessage { chat_id, message, reply_to_id },
                now,
            );
            &&& run.store == store
            &&& answer(run) == Some(ServerMessageView::Error { message: not_participant_text() })
            &&& announced(run) is None
            &&& deliveries(run, online) == Seq::<Recipient>::empty()
        }),
{
}

/// A `SendMessage` of a participant, where the store has room for the
/// message and knows the profile of the sender, stores one new message and
/// announces that message, with its identifier, to the registered connection
/// of every participant of the chat, the sender among them, once, and to
/// nobody else. The sender gets no error.
pub proof fn law_message_reaches_every_participant(
    store: StoreModel,
    online: Map<u64, u64>,
    sender: u64,
    chat_id: u64,
    message: Seq<char>,
    reply_to_id: Option<u64>,
    now: Timestamp,
)
    requires
        store.wf(),
        store.is_member(chat_id, sender),
        store.has_room(),
        store.profiles.contains_key(sender),
    ensures
        ({
            let run = served(
                store,
                sender,
                ClientMessageView::SendMessage { chat_id, message, reply_to_id },
                now,
            );
            let row = store.new_row(chat_id, sender, message, reply_to_id);
            &&& !store.messages.contains_key(row.id)
            &&& run.store == (StoreModel { messages: store.messages.insert(row.id, row), ..store })
            &&& answer(run) is None
            &&& announced(run) == Some(
                ServerMessageView::NewMessage {
                    chat_id,
                    message: row,
                    sender: store.profiles[sender],
                },
            )
            &&& reaches_each_once(
                deliveries(run, online),
                online,
                chat_targets(online, store.participants(chat_id), None),
            )
        }),
{
    law_chat_delivery_is_exact(online, store.participants(chat_id), None);
}

/// Marking a message as read twice leaves one receipt for the message and
/// the reader, with the time of the second call; the store is then as after
/// the second call alone. This holds for a message that exists and a reader
/// that participates in its chat.
pub proof fn law_mark_as_read_is_idempotent(
    store: StoreModel,
    reader: u64,
    message_id: u64,
    first: Timestamp,
    second: Timestamp,
    now: Timestamp,
    later: Timestamp,
)
    requires
        store.messages.contains_key(message_id),
        store.is_member(store.messages[message_id].chat_id, reader),
    ensures
        ({
            let action = ClientMessageView::MarkAsRead { message_id };
            let once = served(store.at(first), reader, action, now).store;
            let twice = served(once.at(second), reader, action, later).store;
            &&& once.reads == store.reads.insert((message_id, reader), first)
            &&& twice.reads == store.reads.insert((message_id, reader), second)
            &&& twice == served(store.at(second), reader, action, later).store
        }),
{
    let action = ClientMessageView::MarkAsRead { message_id };
    let once = served(store.at(first), reader, action, now).store;
    let twice = served(once.at(second), reader, action, later).store;
    assert(once == (StoreModel {
        reads: store.reads.insert((message_id, reader), first),
        clock: first,
        ..store
    }));
    assert(twice.reads =~= store.reads.insert((message_id, reader), second));
}

/// The receipt of a reader never goes back in time while the store's clock
/// does not: after a `MarkAsRead` at a later time the receipt is no older
/// than it was.
pub proof fn law_read_receipt_advances(
    store: StoreModel,
    reader: u64,
    message_id: u64,
    clock: Timestamp,
    now: Timestamp,
)
    requires
        store.reads.contains_key((message_id, reader)),
        store.reads[(message_id, reader)] <= clock,
    ensures
        ({
            let after = served(
                store.at(clock),
                reader,
                ClientMessageView::MarkAsRead { message_id },
                now,
            ).store;
            &&& after.reads.contains_key((message_id, reader))
            &&& store.reads[(message_id, reader)] <= after.reads[(message_id, reader)]
        }),
{
}

/// A typing event is never addressed to the user whose typing it reports,
/// whatever the store holds and whoever is registered.
pub proof fn law_typing_skips_its_author(
    store: StoreModel,
    online: Map<u64, u64>,
    sender: u64,
    chat_id: u64,
    starts: bool,
    now: Timestamp,
)
    ensures
        ({
            let action = if starts {
                ClientMessageView::TypingStart { chat_id }
            } else {
                ClientMessageView::TypingStop { chat_id }
            };
            let sent = deliveries(served(store, sender, action, now), online);
            forall|i: int| 0 <= i < sent.len() ==> (#[trigger] sent[i]).user_id != sender
        }),
{
    let action = if starts {
        ClientMessageView::TypingStart { chat_id }
    } else {
        ClientMessageView::TypingStop { chat_id }
    };
    let run = served(store, sender, action, now);
    match run.step {
        StepView::Deliver { participants, exclude, .. } => {
            assert(exclude == Some(sender));
            law_excluded_user_is_skipped(online, participants, sender);
        },
        _ => {},
    }
}

/// While a participant types, the store holds its indicator with the expiry
/// that the pipeline has set; after its `TypingStop` the store holds none.
pub proof fn law_typing_indicator_comes_and_goes(
    store: StoreModel,
    sender: u64,
    chat_id: u64,
    now: Timestamp,
    later: Timestamp,
)
    requires
        store.is_member(chat_id, sender),
    ensures
        ({
            let typing = served(
                store,
                sender,
                ClientMessageView::TypingStart { chat_id },
                now,
            ).store;
            let stopped = served(
                typing,
                sender,
                ClientMessageView::TypingStop { chat_id },
                later,
            ).store;
            &&& typing.typing == store.typing.insert((chat_id, sender), typing_expiry(now))
            &&& stopped.typing == store.typing.remove((chat_id, sender))
            &&& !stopped.typing.contains_key((chat_id, sender))
        }),
{
    let typing = served(store, sender, ClientMessageView::TypingStart { chat_id }, now).store;
    let stopped = served(typing, sender, ClientMessageView::TypingStop { chat_id }, later).store;
    assert(typing.is_member(chat_id, sender));
    assert(stopped.typing =~= store.typing.remove((chat_id, sender)));
}

/// An event for a chat goes to participants of that chat only, and to
/// registered ones only: every connection that the event of a frame is
/// written to stands for a user that the store names as a participant of the
/// chat that the pipeline has authorized the sender for.
pub proof fn law_only_participants_receive(
    store: StoreModel,
    online: Map<u64, u64>,
    sender: u64,
    action: ClientMessageView,
    now: Timestamp,
)
    ensures
        ({
            let run = served(store, sender, action, now);
            let sent = deliveries(run, online);
            forall|i: int|
                0 <= i < sent.len() ==> {
                    &&& run.store.is_member(run.state.chat_id, (#[trigger] sent[i]).user_id)
                    &&& online.contains_pair(sent[i].user_id, sent[i].connection)
                    &&& run.store.is_member(run.state.chat_id, sender)
                }
        }),
{
    let run = served(store, sender, action, now);
    let sent = deliveries(run, online);
    match run.step {
        StepView::Deliver { participants, exclude, .. } => {
            assert(participants == run.store.participants(run.state.chat_id));
            assert forall|i: int| 0 <= i < sent.len() implies {
                &&& run.store.is_member(run.state.chat_id, (#[trigger] sent[i]).user_id)
                &&& online.contains_pair(sent[i].user_id, sent[i].connection)
            } by {
                let wanted = is_target(online, exclude);
                participants.lemma_filter_pred(wanted, i);
                let chosen = participants.filter(wanted);
                assert(chosen.contains(chosen[i]));
                participants.lemma_filter_contains_rev(wanted, chosen[i]);
            }
        },
        _ => {},
    }
}

} // verus!
