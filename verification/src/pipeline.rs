//! The message pipeline: what the server does with one decoded frame.
//!
//! A frame is served in stages. Between two stages stands a call on the
//! relational store, which the library does not make: a [`Step`] names the
//! call, and [`Pipeline::advance`] takes its answer and decides what comes
//! next. The pipeline ends with a frame for the originating connection, with
//! an event for the participants of a chat, or with nothing.

use crate::authorization::{grants_participation, is_participant};
use crate::protocol::{
    ClientMessage, ClientMessageView, ServerMessage, ServerMessageView, Timestamp,
};
use crate::store::{ParticipantSet, StoreReply, StoreReplyView, StoreRequest, StoreRequestView};
use crate::text::{decimal, push_decimal};
use vstd::prelude::*;
use vstd::string::*;

verus! {

/// How long a typing indicator stays valid, in microseconds.
pub const TYPING_TTL: Timestamp = 5_000_000;

/// Why a frame was not served.
#[derive(Debug, Clone, Copy, PartialEq, Eq, Structural)]
pub enum Failure {
    /// The sender lacks the required relationship to the chat.
    Unauthorized,
    /// The message that the frame refers to does not exist.
    NotFound,
    /// The frame does not decode against the protocol.
    Malformed,
    /// A call on the store failed.
    StoreFailure,
    /// The message is stored, but could not be read back or handed to the
    /// participants.
    DeliveryGap,
}

impl Failure {
    /// Whether the failure is told to the originating connection. A delivery
    /// gap is not: the sender has no part in it.
    pub open spec fn surfaces(self) -> bool {
        !(self is DeliveryGap)
    }

    /// Whether the failure is told to the originating connection.
    pub fn is_surfaced(&self) -> (told: bool)
        ensures
            told == self.surfaces(),
    {
        match self {
            Failure::DeliveryGap => false,
            _ => true,
        }
    }
}

/// Where a pipeline stands.
#[derive(Debug, Clone, Copy, PartialEq, Eq, Structural)]
pub enum Stage {
    /// Nothing was done yet.
    Received,
    /// Waiting for the chat of the message that a receipt is for.
    Resolving,
    /// Waiting to learn whether the sender participates in the chat.
    Authorizing,
    /// Waiting for the store to write.
    Persisting,
    /// Waiting for what the event has to carry beside the frame's own data.
    Rehydrating,
    /// Waiting for the participants of the chat.
    Broadcasting,
    /// The frame was served.
    Done,
    /// The frame was not served.
    Failed(Failure),
}

/// The state of serving one frame.
#[derive(Debug, Clone, PartialEq, Eq)]
pub struct Pipeline {
    /// Who sent the frame.
    pub sender: u64,
    /// The frame.
    pub action: ClientMessage,
    /// When the frame arrived.
    pub now: Timestamp,
    pub stage: Stage,
    /// The chat that the frame is about, from `Authorizing` on.
    pub chat_id: u64,
    /// The message that the frame is about: the one to mark as read, or the
    /// one that was inserted.
    pub message_id: u64,
    /// The event that waits for the participants, while `Broadcasting`.
    pub outgoing: Option<ServerMessage>,
}

/// What a [`Pipeline`] holds, with its texts as character sequences.
pub struct PipelineView {
    pub sender: u64,
    pub action: ClientMessageView,
    pub now: Timestamp,
    pub stage: Stage,
    pub chat_id: u64,
    pub message_id: u64,
    pub outgoing: Option<ServerMessageView>,
}

impl View for Pipeline {
    type V = PipelineView;

    open spec fn view(&self) -> PipelineView {
        PipelineView {
            sender: self.sender,
            action: self.action@,
            now: self.now,
            stage: self.stage,
            chat_id: self.chat_id,
            message_id: self.message_id,
            outgoing: match self.outgoing {
                Some(event) => Some(event@),
                None => None,
            },
        }
    }
}

/// What is to be done after a decision of the pipeline.
#[derive(Debug, Clone, PartialEq, Eq)]
pub enum Step {
    /// Make this call on the store and hand its answer to `advance`.
    Ask(StoreRequest),
    /// The pipeline has ended: send this frame on the originating connection.
    Reply(ServerMessage),
    /// The pipeline has ended: deliver the event to the connected ones among
    /// the participants, but for the excluded user.
    Deliver { event: ServerMessage, participants: ParticipantSet, exclude: Option<u64> },
    /// The pipeline has ended and nothing is to be sent.
    Nothing,
}

/// What a [`Step`] holds, with its texts as character sequences.
pub enum StepView {
    Ask(StoreRequestView),
    Reply(ServerMessageView),
    Deliver { event: ServerMessageView, participants: Seq<u64>, exclude: Option<u64> },
    Nothing,
}

impl View for Step {
    type V = StepView;

    open spec fn view(&self) -> StepView {
        match *self {
            Step::Ask(request) => StepView::Ask(request@),
            Step::Reply(event) => StepView::Reply(event@),
            Step::Deliver { event, participants, exclude } => StepView::Deliver {
                event: event@,
                participants: participants@,
                exclude,
            },
            Step::Nothing => StepView::Nothing,
        }
    }
}

/// The error text for a sender that is no participant of the chat.
pub open spec fn not_participant_text() -> Seq<char> {
    "You are not a participant of this chat"@
}

/// The error text where the store could not say whether the sender
/// participates.
pub open spec fn access_unverified_text() -> Seq<char> {
    "Failed to verify chat access"@
}

/// The error text where the store could not insert the message.
pub open spec fn send_failed_text() -> Seq<char> {
    "Failed to send message"@
}

/// The error text where the store could not write or delete a typing
/// indicator.
pub open spec fn typing_failed_text() -> Seq<char> {
    "Failed to update typing status"@
}

/// The error text for a receipt on a message that does not exist.
pub open spec fn message_missing_text() -> Seq<char> {
    "Message not found"@
}

/// The error text where the store could not record a receipt.
pub open spec fn read_failed_text() -> Seq<char> {
    "Failed to mark message as read"@
}

/// The name under which a user is shown where the store gives none.
pub open spec fn fallback_name(user_id: u64) -> Seq<char> {
    "User "@ + decimal(user_id as nat)
}

/// When a typing indicator that starts at `now` expires; the latest time
/// there is, where the sum would lie beyond it.
pub open spec fn typing_expiry(now: Timestamp) -> Timestamp {
    if now + TYPING_TTL > i64::MAX {
        i64::MAX
    } else {
        (now + TYPING_TTL) as i64
    }
}

/// Whom an event of this action leaves out: nobody for a new message, which
/// its sender receives too, and the sender for every other action.
pub open spec fn excluded(state: PipelineView) -> Option<u64> {
    if state.action is SendMessage {
        None
    } else {
        Some(state.sender)
    }
}

/// The pipeline fails and tells the originating connection why.
pub open spec fn refuse(state: PipelineView, failure: Failure, text: Seq<char>) -> (
    PipelineView,
    StepView,
) {
    (
        PipelineView { stage: Stage::Failed(failure), ..state },
        StepView::Reply(ServerMessageView::Error { message: text }),
    )
}

/// The pipeline fails and sends nothing.
pub open spec fn give_up(state: PipelineView, failure: Failure) -> (PipelineView, StepView) {
    (PipelineView { stage: Stage::Failed(failure), ..state }, StepView::Nothing)
}

/// The pipeline enters a stage and asks the store.
pub open spec fn ask(state: PipelineView, stage: Stage, request: StoreRequestView) -> (
    PipelineView,
    StepView,
) {
    (PipelineView { stage, ..state }, StepView::Ask(request))
}

/// The pipeline asks whether the sender participates in the chat.
pub open spec fn authorize(state: PipelineView, chat_id: u64) -> (PipelineView, StepView) {
    ask(
        PipelineView { chat_id, ..state },
        Stage::Authorizing,
        StoreRequestView::IsParticipant { chat_id, user_id: state.sender },
    )
}

/// The pipeline holds the event and asks for the participants of the chat.
pub open spec fn broadcast(state: PipelineView, event: ServerMessageView) -> (
    PipelineView,
    StepView,
) {
    ask(
        PipelineView { outgoing: Some(event), ..state },
        Stage::Broadcasting,
        StoreRequestView::Participants { chat_id: state.chat_id },
    )
}

/// The pipeline of a frame that has just arrived.
pub open spec fn received(sender: u64, action: ClientMessageView, now: Timestamp) -> PipelineView {
    PipelineView {
        sender,
        action,
        now,
        stage: Stage::Received,
        chat_id: 0,
        message_id: 0,
        outgoing: None,
    }
}

/// The first decision on a frame.
pub open spec fn start(state: PipelineView) -> (PipelineView, StepView) {
    if state.stage != Stage::Received {
        (state, StepView::Nothing)
    } else {
        match state.action {
            ClientMessageView::SendMessage { chat_id, .. } => authorize(state, chat_id),
            ClientMessageView::TypingStart { chat_id } => authorize(state, chat_id),
            ClientMessageView::TypingStop { chat_id } => authorize(state, chat_id),
            ClientMessageView::MarkAsRead { message_id } => ask(
                PipelineView { message_id, ..state },
                Stage::Resolving,
                StoreRequestView::ChatOfMessage { message_id },
            ),
            ClientMessageView::JoinChat { .. } => (
                PipelineView { stage: Stage::Done, ..state },
                StepView::Nothing,
            ),
            ClientMessageView::LeaveChat { .. } => (
                PipelineView { stage: Stage::Done, ..state },
                StepView::Nothing,
            ),
            ClientMessageView::Ping => (
                PipelineView { stage: Stage::Done, ..state },
                StepView::Reply(ServerMessageView::Pong),
            ),
        }
    }
}

/// The write that an authorized action asks of the store.
pub open spec fn persist_request(state: PipelineView) -> StoreRequestView {
    match state.action {
        ClientMessageView::SendMessage { message, reply_to_id, .. } => {
            StoreRequestView::InsertMessage {
                chat_id: state.chat_id,
                sender_id: state.sender,
                message,
                reply_to_id,
            }
        },
        ClientMessageView::TypingStart { .. } => StoreRequestView::UpsertTyping {
            chat_id: state.chat_id,
            user_id: state.sender,
            expires_at: typing_expiry(state.now),
        },
        ClientMessageView::TypingStop { .. } => StoreRequestView::DeleteTyping {
            chat_id: state.chat_id,
            user_id: state.sender,
        },
        _ => StoreRequestView::UpsertRead {
            message_id: state.message_id,
            reader_id: state.sender,
        },
    }
}

/// The decision on the store's word about the sender's participation: only
/// a plain yes lets the action through.
pub open spec fn after_authorizing(state: PipelineView, reply: StoreReplyView) -> (
    PipelineView,
    StepView,
) {
    if grants_participation(reply) {
        ask(state, Stage::Persisting, persist_request(state))
    } else if reply is Flag {
        refuse(state, Failure::Unauthorized, not_participant_text())
    } else {
        refuse(state, Failure::StoreFailure, access_unverified_text())
    }
}

/// The decision on the participants of the chat: the event that waits goes
/// to them.
pub open spec fn after_broadcasting(state: PipelineView, reply: StoreReplyView) -> (
    PipelineView,
    StepView,
) {
    match (reply, state.outgoing) {
        (StoreReplyView::Members(participants), Some(event)) => (
            PipelineView { stage: Stage::Done, outgoing: None, ..state },
            StepView::Deliver { event, participants, exclude: excluded(state) },
        ),
        _ => give_up(state, Failure::DeliveryGap),
    }
}

/// One decision of a pipeline that serves `SendMessage`.
pub open spec fn send_message_step(state: PipelineView, reply: StoreReplyView) -> (
    PipelineView,
    StepView,
) {
    match state.stage {
        Stage::Authorizing => after_authorizing(state, reply),
        Stage::Persisting => match reply {
            StoreReplyView::Inserted(id) => ask(
                PipelineView { message_id: id, ..state },
                Stage::Rehydrating,
                StoreRequestView::LoadMessage { message_id: id },
            ),
            _ => refuse(state, Failure::StoreFailure, send_failed_text()),
        },
        Stage::Rehydrating => match reply {
            StoreReplyView::Message { message, sender } => if message.id == state.message_id {
                broadcast(
                    state,
                    ServerMessageView::NewMessage { chat_id: state.chat_id, message, sender },
                )
            } else {
                give_up(state, Failure::DeliveryGap)
            },
            _ => give_up(state, Failure::DeliveryGap),
        },
        Stage::Broadcasting => after_broadcasting(state, reply),
        _ => (state, StepView::Nothing),
    }
}

/// One decision of a pipeline that serves `TypingStart`.
pub open spec fn typing_start_step(state: PipelineView, reply: StoreReplyView) -> (
    PipelineView,
    StepView,
) {
    match state.stage {
        Stage::Authorizing => after_authorizing(state, reply),
        Stage::Persisting => if reply is Done {
            ask(state, Stage::Rehydrating, StoreRequestView::DisplayName { user_id: state.sender })
        } else {
            refuse(state, Failure::StoreFailure, typing_failed_text())
        },
        Stage::Rehydrating => broadcast(
            state,
            ServerMessageView::UserTyping {
                chat_id: state.chat_id,
                user_id: state.sender,
                user_name: match reply {
                    StoreReplyView::Name(name) => name,
                    _ => fallback_name(state.sender),
                },
            },
        ),
        Stage::Broadcasting => after_broadcasting(state, reply),
        _ => (state, StepView::Nothing),
    }
}

/// One decision of a pipeline that serves `TypingStop`.
pub open spec fn typing_stop_step(state: PipelineView, reply: StoreReplyView) -> (
    PipelineView,
    StepView,
) {
    match state.stage {
        Stage::Authorizing => after_authorizing(state, reply),
        Stage::Persisting => if reply is Done {
            broadcast(
                state,
                ServerMessageView::UserStoppedTyping {
                    chat_id: state.chat_id,
                    user_id: state.sender,
                },
            )
        } else {
            refuse(state, Failure::StoreFailure, typing_failed_text())
        },
        Stage::Broadcasting => after_broadcasting(state, reply),
        _ => (state, StepView::Nothing),
    }
}

/// One decision of a pipeline that serves `MarkAsRead`.
pub open spec fn mark_as_read_step(state: PipelineView, reply: StoreReplyView) -> (
    PipelineView,
    StepView,
) {
    match state.stage {
        Stage::Resolving => match reply {
            StoreReplyView::Chat(Some(chat_id)) => authorize(state, chat_id),
            StoreReplyView::Chat(None) => refuse(
                state,
                Failure::NotFound,
                message_missing_text(),
            ),
            _ => refuse(state, Failure::StoreFailure, access_unverified_text()),
        },
        Stage::Authorizing => after_authorizing(state, reply),
        Stage::Persisting => match reply {
            StoreReplyView::ReadAt(read_at) => broadcast(
                state,
                ServerMessageView::MessageRead {
                    message_id: state.message_id,
                    reader_id: state.sender,
                    read_at,
                },
            ),
            _ => refuse(state, Failure::StoreFailure, read_failed_text()),
        },
        Stage::Broadcasting => after_broadcasting(state, reply),
        _ => (state, StepView::Nothing),
    }
}

/// The decision of a pipeline on an answer of the store.
pub open spec fn step(state: PipelineView, reply: StoreReplyView) -> (PipelineView, StepView) {
    match state.action {
        ClientMessageView::SendMessage { .. } => send_message_step(state, reply),
        ClientMessageView::TypingStart { .. } => typing_start_step(state, reply),
        ClientMessageView::TypingStop { .. } => typing_stop_step(state, reply),
        ClientMessageView::MarkAsRead { .. } => mark_as_read_step(state, reply),
        _ => (state, StepView::Nothing),
    }
}

/// Whether a request changes what the store holds.
pub open spec fn writes(request: StoreRequestView) -> bool {
    request is InsertMessage || request is UpsertTyping || request is DeleteTyping
        || request is UpsertRead
}

/// What a pipeline on its way makes of an answer: a pipeline that waits for
/// one decides on it, and one that has ended stays as it is.
pub open spec fn answered(run: (PipelineView, StepView), reply: StoreReplyView) -> (
    PipelineView,
    StepView,
) {
    if run.1 is Ask {
        step(run.0, reply)
    } else {
        run
    }
}

/// The store is only written to for a sender of whom it has said, in
/// answer to the pipeline's question, that it participates in the chat; and
/// the write is that of the frame's action, in the chat that was asked
/// about, under the sender's identity.
pub proof fn law_only_participants_write(state: PipelineView, reply: StoreReplyView)
    ensures
        !(start(state).1 matches StepView::Ask(request) && writes(request)),
        step(state, reply).1 matches StepView::Ask(request) ==> (writes(request) ==> {
            &&& state.stage is Authorizing
            &&& grants_participation(reply)
            &&& request == persist_request(state)
        }),
{
}

/// A pipeline that ends in failure tells the originating connection so with
/// one error frame, unless the failure is a delivery gap, of which nothing
/// is told. A pipeline never fails on a malformed frame: such a frame starts
/// none.
pub proof fn law_failures_surface(state: PipelineView, reply: StoreReplyView)
    requires
        !(state.stage is Failed),
    ensures
        step(state, reply).0.stage matches Stage::Failed(failure) ==> {
            &&& !(failure is Malformed)
            &&& failure.surfaces() ==> step(state, reply).1 is Reply && step(
                state,
                reply,
            ).1->Reply_0 is Error
            &&& !failure.surfaces() ==> step(state, reply).1 is Nothing
        },
        !(start(state).0.stage is Failed),
{
}

/// Whatever the store answers, an event goes out to a chat with the sender
/// left out, unless it announces a new message, which the sender receives
/// too; and a typing event is never the one that includes the sender.
pub proof fn law_only_new_messages_include_the_sender(state: PipelineView, reply: StoreReplyView)
    ensures
        !(start(state).1 is Deliver),
        step(state, reply).1 matches StepView::Deliver { exclude, .. } ==> {
            &&& exclude == excluded(state)
            &&& exclude is None <==> state.action is SendMessage
            &&& state.action is TypingStart || state.action is TypingStop ==> exclude == Some(
                state.sender,
            )
        },
{
}

/// A frame never takes more than four answers of the store: after them the
/// pipeline has ended, whatever the answers were.
pub proof fn law_four_answers_end_a_frame(
    sender: u64,
    action: ClientMessageView,
    now: Timestamp,
    first: StoreReplyView,
    second: StoreReplyView,
    third: StoreReplyView,
    fourth: StoreReplyView,
)
    ensures
        ({
            let begun = start(received(sender, action, now));
            let ended = answered(answered(answered(answered(begun, first), second), third), fourth);
            &&& !(ended.1 is Ask)
            &&& ended.0.stage is Done || ended.0.stage is Failed
        }),
{
}

/// No message is announced before the store has it: where a frame ends in
/// the delivery of a new message, the pipeline has asked the store to insert
/// the message of the frame for the sender, the store has answered with the
/// identifier that the announced message carries, and the announcement names
/// the chat of the frame.
pub proof fn law_announcement_follows_insert(
    sender: u64,
    action: ClientMessageView,
    now: Timestamp,
    first: StoreReplyView,
    second: StoreReplyView,
    third: StoreReplyView,
    fourth: StoreReplyView,
)
    ensures
        ({
            let begun = start(received(sender, action, now));
            let authorized = answered(begun, first);
            let persisted = answered(authorized, second);
            let ended = answered(answered(persisted, third), fourth);
            ended.1 matches StepView::Deliver {
                event: ServerMessageView::NewMessage { chat_id, message, .. },
                ..
            } ==> {
                &&& action matches ClientMessageView::SendMessage {
                    chat_id: asked_chat,
                    message: body,
                    reply_to_id,
                }
                &&& chat_id == asked_chat
                &&& grants_participation(first)
                &&& authorized.1 == StepView::Ask(
                    StoreRequestView::InsertMessage {
                        chat_id,
                        sender_id: sender,
                        message: body,
                        reply_to_id,
                    },
                )
                &&& second == StoreReplyView::Inserted(message.id)
            }
        }),
{
}

/// The time at which a typing indicator that starts now expires.
pub fn expiry_of(now: Timestamp) -> (expires_at: Timestamp)
    ensures
        expires_at == typing_expiry(now),
{
    if now > i64::MAX - TYPING_TTL {
        i64::MAX
    } else {
        now + TYPING_TTL
    }
}

/// The name for a user of whom the store gives none.
pub fn name_without_profile(user_id: u64) -> (name: String)
    ensures
        name@ == fallback_name(user_id),
{
    let mut name = "User ".to_owned();
    push_decimal(&mut name, user_id);
    name
}

impl Pipeline {
    /// The pipeline for a frame that has just arrived.
    pub fn receive(sender: u64, action: ClientMessage, now: Timestamp) -> (pipeline: Self)
        ensures
            pipeline@ == received(sender, action@, now),
    {
        Pipeline {
            sender,
            action,
            now,
            stage: Stage::Received,
            chat_id: 0,
            message_id: 0,
            outgoing: None,
        }
    }

    /// Whether the pipeline has ended.
    pub open spec fn ended(&self) -> bool {
        self.stage is Done || self.stage is Failed
    }

    /// Whether the pipeline has ended.
    pub fn is_finished(&self) -> (finished: bool)
        ensures
            finished == self.ended(),
    {
        match self.stage {
            Stage::Done => true,
            Stage::Failed(_) => true,
            _ => false,
        }
    }

    fn refuse(self, failure: Failure, text: &str) -> (next: (Pipeline, Step))
        ensures
            (next.0@, next.1@) == refuse(self@, failure, text@),
    {
        let mut state = self;
        state.stage = Stage::Failed(failure);
        (state, Step::Reply(ServerMessage::error(text)))
    }

    fn give_up(self, failure: Failure) -> (next: (Pipeline, Step))
        ensures
            (next.0@, next.1@) == give_up(self@, failure),
    {
        let mut state = self;
        state.stage = Stage::Failed(failure);
        (state, Step::Nothing)
    }

    fn ask(self, stage: Stage, request: StoreRequest) -> (next: (Pipeline, Step))
        ensures
            (next.0@, next.1@) == ask(self@, stage, request@),
    {
        let mut state = self;
        state.stage = stage;
        (state, Step::Ask(request))
    }

    fn authorize(self, chat_id: u64) -> (next: (Pipeline, Step))
        ensures
            (next.0@, next.1@) == authorize(self@, chat_id),
    {
        let mut state = self;
        state.chat_id = chat_id;
        let user_id = state.sender;
        state.ask(Stage::Authorizing, StoreRequest::IsParticipant { chat_id, user_id })
    }

    fn broadcast(self, event: ServerMessage) -> (next: (Pipeline, Step))
        ensures
            (next.0@, next.1@) == broadcast(self@, event@),
    {
        let mut state = self;
        let chat_id = state.chat_id;
        state.outgoing = Some(event);
        state.ask(Stage::Broadcasting, StoreRequest::Participants { chat_id })
    }

    fn persist_request(&self) -> (request: StoreRequest)
        ensures
            request@ == persist_request(self@),
    {
        match &self.action {
            ClientMessage::SendMessage { message, reply_to_id, .. } => {
                StoreRequest::InsertMessage {
                    chat_id: self.chat_id,
                    sender_id: self.sender,
                    message: message.clone(),
                    reply_to_id: *reply_to_id,
                }
            },
            ClientMessage::TypingStart { .. } => StoreRequest::UpsertTyping {
                chat_id: self.chat_id,
                user_id: self.sender,
                expires_at: expiry_of(self.now),
            },
            ClientMessage::TypingStop { .. } => StoreRequest::DeleteTyping {
                chat_id: self.chat_id,
                user_id: self.sender,
            },
            _ => StoreRequest::UpsertRead { message_id: self.message_id, reader_id: self.sender },
        }
    }

    fn after_authorizing(self, reply: StoreReply) -> (next: (Pipeline, Step))
        ensures
            (next.0@, next.1@) == after_authorizing(self@, reply@),
    {
        if is_participant(&reply) {
            let request = self.persist_request();
            self.ask(Stage::Persisting, request)
        } else {
            match reply {
                StoreReply::Flag(_) => self.refuse(
                    Failure::Unauthorized,
                    "You are not a participant of this chat",
                ),
                _ => self.refuse(Failure::StoreFailure, "Failed to verify chat access"),
            }
        }
    }

    fn after_broadcasting(self, reply: StoreReply) -> (next: (Pipeline, Step))
        ensures
            (next.0@, next.1@) == after_broadcasting(self@, reply@),
    {
        let exclude = match &self.action {
            ClientMessage::SendMessage { .. } => None,
            _ => Some(self.sender),
        };
        let mut state = self;
        match reply {
            StoreReply::Members(participants) => {
                match state.outgoing.take() {
                    Some(event) => {
                        state.stage = Stage::Done;
                        (state, Step::Deliver { event, participants, exclude })
                    },
                    None => state.give_up(Failure::DeliveryGap),
                }
            },
            _ => state.give_up(Failure::DeliveryGap),
        }
    }

    /// The first decision on the frame: which call on the store its action
    /// begins with, or how it ends at once.
    pub fn start(self) -> (next: (Pipeline, Step))
        ensures
            (next.0@, next.1@) == start(self@),
    {
        handle_client_message(self)
    }

    /// The decision on an answer of the store.
    pub fn advance(self, reply: StoreReply) -> (next: (Pipeline, Step))
        ensures
            (next.0@, next.1@) == step(self@, reply@),
    {
        match &self.action {
            ClientMessage::SendMessage { .. } => handle_send_message(self, reply),
            ClientMessage::TypingStart { .. } => handle_typing_start(self, reply),
            ClientMessage::TypingStop { .. } => handle_typing_stop(self, reply),
            ClientMessage::MarkAsRead { .. } => handle_mark_as_read(self, reply),
            _ => (self, Step::Nothing),
        }
    }
}

/// Begins to serve a frame, by the kind of its action.
pub fn handle_client_message(pipeline: Pipeline) -> (next: (Pipeline, Step))
    ensures
        (next.0@, next.1@) == start(pipeline@),
{
    match pipeline.stage {
        Stage::Received => {},
        _ => {
            return (pipeline, Step::Nothing);
        },
    }
    let mut state = pipeline;
    match &state.action {
        ClientMessage::SendMessage { chat_id, .. } => {
            let chat_id = *chat_id;
            state.authorize(chat_id)
        },
        ClientMessage::TypingStart { chat_id } => {
            let chat_id = *chat_id;
            state.authorize(chat_id)
        },
        ClientMessage::TypingStop { chat_id } => {
            let chat_id = *chat_id;
            state.authorize(chat_id)
        },
        ClientMessage::MarkAsRead { message_id } => {
            let message_id = *message_id;
            state.message_id = message_id;
            state.ask(Stage::Resolving, StoreRequest::ChatOfMessage { message_id })
        },
        ClientMessage::JoinChat { .. } => {
            state.stage = Stage::Done;
            (state, Step::Nothing)
        },
        ClientMessage::LeaveChat { .. } => {
            state.stage = Stage::Done;
            (state, Step::Nothing)
        },
        ClientMessage::Ping => {
            state.stage = Stage::Done;
            (state, Step::Reply(ServerMessage::Pong))
        },
    }
}

/// Serves `SendMessage`: the sender is authorized, the message is inserted
/// and read back with its sender's profile, and goes to every participant of
/// the chat, the sender among them. A message that is stored but cannot be
/// read back is not announced.
pub fn handle_send_message(pipeline: Pipeline, reply: StoreReply) -> (next: (Pipeline, Step))
    ensures
        (next.0@, next.1@) == send_message_step(pipeline@, reply@),
{
    let mut state = pipeline;
    match state.stage {
        Stage::Authorizing => state.after_authorizing(reply),
        Stage::Persisting => match reply {
            StoreReply::Inserted(id) => {
                state.message_id = id;
                state.ask(Stage::Rehydrating, StoreRequest::LoadMessage { message_id: id })
            },
            _ => state.refuse(Failure::StoreFailure, "Failed to send message"),
        },
        Stage::Rehydrating => match reply {
            StoreReply::Message { message, sender } => {
                if message.id == state.message_id {
                    let chat_id = state.chat_id;
                    state.broadcast(ServerMessage::NewMessage { chat_id, message, sender })
                } else {
                    state.give_up(Failure::DeliveryGap)
                }
            },
            _ => state.give_up(Failure::DeliveryGap),
        },
        Stage::Broadcasting => state.after_broadcasting(reply),
        _ => (state, Step::Nothing),
    }
}

/// Serves `TypingStart`: the sender is authorized, the indicator is written
/// with its expiry, and the other participants learn who is typing, under
/// the name that the store gives, or under a name made of the user's number
/// where it gives none.
pub fn handle_typing_start(pipeline: Pipeline, reply: StoreReply) -> (next: (Pipeline, Step))
    ensures
        (next.0@, next.1@) == typing_start_step(pipeline@, reply@),
{
    let state = pipeline;
    match state.stage {
        Stage::Authorizing => state.after_authorizing(reply),
        Stage::Persisting => match reply {
            StoreReply::Done => {
                let user_id = state.sender;
                state.ask(Stage::Rehydrating, StoreRequest::DisplayName { user_id })
            },
            _ => state.refuse(Failure::StoreFailure, "Failed to update typing status"),
        },
        Stage::Rehydrating => {
            let user_name = match reply {
                StoreReply::Name(name) => name,
                _ => name_without_profile(state.sender),
            };
            let chat_id = state.chat_id;
            let user_id = state.sender;
            state.broadcast(ServerMessage::UserTyping { chat_id, user_id, user_name })
        },
        Stage::Broadcasting => state.after_broadcasting(reply),
        _ => (state, Step::Nothing),
    }
}

/// Serves `TypingStop`: the sender is authorized, the indicator is deleted,
/// and the other participants learn that the typing has stopped.
pub fn handle_typing_stop(pipeline: Pipeline, reply: StoreReply) -> (next: (Pipeline, Step))
    ensures
        (next.0@, next.1@) == typing_stop_step(pipeline@, reply@),
{
    let state = pipeline;
    match state.stage {
        Stage::Authorizing => state.after_authorizing(reply),
        Stage::Persisting => match reply {
            StoreReply::Done => {
                let chat_id = state.chat_id;
                let user_id = state.sender;
                state.broadcast(ServerMessage::UserStoppedTyping { chat_id, user_id })
            },
            _ => state.refuse(Failure::StoreFailure, "Failed to update typing status"),
        },
        Stage::Broadcasting => state.after_broadcasting(reply),
        _ => (state, Step::Nothing),
    }
}

/// Serves `MarkAsRead`: the chat of the message is looked up, the reader is
/// authorized against it, the receipt is written, and the other participants
/// learn of it with the time that the store recorded.
pub fn handle_mark_as_read(pipeline: Pipeline, reply: StoreReply) -> (next: (Pipeline, Step))
    ensures
        (next.0@, next.1@) == mark_as_read_step(pipeline@, reply@),
{
    let state = pipeline;
    match state.stage {
        Stage::Resolving => match reply {
            StoreReply::Chat(Some(chat_id)) => state.authorize(chat_id),
            StoreReply::Chat(None) => state.refuse(Failure::NotFound, "Message not found"),
            _ => state.refuse(Failure::StoreFailure, "Failed to verify chat access"),
        },
        Stage::Authorizing => state.after_authorizing(reply),
        Stage::Persisting => match reply {
            StoreReply::ReadAt(read_at) => {
                let message_id = state.message_id;
                let reader_id = state.sender;
                state.broadcast(ServerMessage::MessageRead { message_id, reader_id, read_at })
            },
            _ => state.refuse(Failure::StoreFailure, "Failed to mark message as read"),
        },
        Stage::Broadcasting => state.after_broadcasting(reply),
        _ => (state, Step::Nothing),
    }
}

} // verus!
