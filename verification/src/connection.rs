//! One live connection: how it is accepted, what each inbound frame leads
//! to, and how it ends.
//!
//! The channel itself stays with the caller, which reads the frames and hands
//! them over as plain values, and carries out what a [`Reaction`] says.

use crate::decode::decoded;
use crate::pipeline::{received, start, Failure, Pipeline, PipelineView, Step, StepView};
use crate::protocol::{ClientMessage, ServerMessage, ServerMessageView, Timestamp};
use crate::records::MySelf;
use crate::registry::{
    connection_of, everyone_but, reaches_each_once, ChatConnectionManager, Dispatch, Recipient,
};
use vstd::prelude::*;

verus! {

/// What the authentication found in the request that asks for a connection.
#[derive(Debug, Clone, Copy, PartialEq, Eq, Structural)]
pub enum Credential {
    /// The request carries no credential.
    Missing,
    /// The request carries a credential that is not valid.
    Invalid,
    /// The request carries a valid credential of this identity.
    Valid(MySelf),
}

/// Why a connection was not accepted.
#[derive(Debug, Clone, Copy, PartialEq, Eq, Structural)]
pub enum Rejection {
    NoCredential,
    BadCredential,
}

/// The text of the unauthorized response for a rejection.
pub open spec fn rejection_text(rejection: Rejection) -> Seq<char> {
    match rejection {
        Rejection::NoCredential => "Authentication required"@,
        Rejection::BadCredential => "Invalid authentication token"@,
    }
}

impl Rejection {
    /// The body of the unauthorized response.
    pub fn body(&self) -> (text: String)
        ensures
            text@ == rejection_text(*self),
    {
        match self {
            Rejection::NoCredential => "Authentication required".to_owned(),
            Rejection::BadCredential => "Invalid authentication token".to_owned(),
        }
    }
}

/// Decides on a request for a connection: only a valid credential opens one,
/// under the identity that it names.
pub fn authenticate(credential: Credential) -> (verdict: Result<MySelf, Rejection>)
    ensures
        verdict == match credential {
            Credential::Valid(identity) => Ok::<MySelf, Rejection>(identity),
            Credential::Missing => Err(Rejection::NoCredential),
            Credential::Invalid => Err(Rejection::BadCredential),
        },
{
    match credential {
        Credential::Valid(identity) => Ok(identity),
        Credential::Missing => Err(Rejection::NoCredential),
        Credential::Invalid => Err(Rejection::BadCredential),
    }
}

/// A frame as the channel delivers it.
#[derive(Debug, Clone, PartialEq, Eq)]
pub enum Inbound {
    /// A text frame: the text of a protocol frame.
    Text(String),
    /// A ping of the transport, with its payload.
    Ping(Vec<u8>),
    /// A pong of the transport.
    Pong,
    /// The peer closes the connection.
    Close,
    /// Any other frame of the transport.
    Other,
}

/// What an [`Inbound`] holds.
pub enum InboundView {
    Text(Seq<char>),
    Ping(Seq<u8>),
    Pong,
    Close,
    Other,
}

impl View for Inbound {
    type V = InboundView;

    open spec fn view(&self) -> InboundView {
        match *self {
            Inbound::Text(text) => InboundView::Text(text@),
            Inbound::Ping(payload) => InboundView::Ping(payload@),
            Inbound::Pong => InboundView::Pong,
            Inbound::Close => InboundView::Close,
            Inbound::Other => InboundView::Other,
        }
    }
}

/// What the caller is to do about an inbound frame.
#[derive(Debug, Clone, PartialEq, Eq)]
pub enum Reaction {
    /// The frame decoded to an action: carry out the step, and the steps that
    /// the pipeline gives after it.
    Serve { pipeline: Pipeline, step: Step },
    /// The frame is not served: send this error on the connection.
    Refuse { failure: Failure, event: ServerMessage },
    /// Answer the transport's ping with a pong of this payload.
    Pong(Vec<u8>),
    /// Do nothing.
    Ignore,
    /// Stop reading and close the connection.
    Hangup,
}

/// What a [`Reaction`] holds.
pub enum ReactionView {
    Serve { pipeline: PipelineView, step: StepView },
    Refuse { failure: Failure, event: ServerMessageView },
    Pong(Seq<u8>),
    Ignore,
    Hangup,
}

impl View for Reaction {
    type V = ReactionView;

    open spec fn view(&self) -> ReactionView {
        match *self {
            Reaction::Serve { pipeline, step } => ReactionView::Serve {
                pipeline: pipeline@,
                step: step@,
            },
            Reaction::Refuse { failure, event } => ReactionView::Refuse { failure, event: event@ },
            Reaction::Pong(payload) => ReactionView::Pong(payload@),
            Reaction::Ignore => ReactionView::Ignore,
            Reaction::Hangup => ReactionView::Hangup,
        }
    }
}

/// The error text for a frame that does not decode.
pub open spec fn malformed_text() -> Seq<char> {
    "Invalid message format"@
}

/// What an inbound frame leads to on an open connection of a user: a text
/// that decodes starts a pipeline, and one that does not is answered with an
/// error and changes nothing else.
pub open spec fn reaction_to(user_id: u64, frame: InboundView, now: Timestamp) -> ReactionView {
    match frame {
        InboundView::Text(text) => match decoded(text) {
            Some(action) => {
                let begun = start(received(user_id, action, now));
                ReactionView::Serve { pipeline: begun.0, step: begun.1 }
            },
            None => ReactionView::Refuse {
                failure: Failure::Malformed,
                event: ServerMessageView::Error { message: malformed_text() },
            },
        },
        InboundView::Ping(payload) => ReactionView::Pong(payload),
        InboundView::Pong => ReactionView::Ignore,
        InboundView::Close => ReactionView::Hangup,
        InboundView::Other => ReactionView::Ignore,
    }
}

/// A connection of an authenticated identity.
#[derive(Debug, Clone, Copy, PartialEq, Eq, Structural)]
pub struct Connection {
    /// The identity that was authenticated; it stays the same for the life of
    /// the connection.
    pub identity: MySelf,
    /// The number under which the connection is registered.
    pub connection: u64,
    /// Whether the connection is still registered by this value.
    pub is_open: bool,
}

impl Connection {
    /// Registers a new connection of an identity. Returns the connection and
    /// the announcement that the user is online.
    pub fn open(
        identity: MySelf,
        connection: u64,
        manager: &mut ChatConnectionManager,
    ) -> (opened: (Connection, Dispatch))
        ensures
            opened.0 == (Connection { identity, connection, is_open: true }),
            final(manager)@ == old(manager)@.insert(identity.id, connection),
            opened.1.event@ == (ServerMessageView::UserOnline { user_id: identity.id }),
            reaches_each_once(
                opened.1.recipients@,
                final(manager)@,
                everyone_but(final(manager)@, Some(identity.id)),
            ),
    {
        let announcement = manager.connect(identity.id, connection);
        (Connection { identity, connection, is_open: true }, announcement)
    }

    /// Decides on an inbound frame. A connection that was closed ignores
    /// every frame.
    pub fn on_frame(&self, frame: Inbound, now: Timestamp) -> (reaction: Reaction)
        ensures
            reaction@ == if self.is_open {
                reaction_to(self.identity.id, frame@, now)
            } else {
                ReactionView::Ignore
            },
    {
        if !self.is_open {
            return Reaction::Ignore;
        }
        match frame {
            Inbound::Text(text) => match ClientMessage::decode(text.as_str()) {
                Some(action) => {
                    let (pipeline, step) = Pipeline::receive(self.identity.id, action, now).start();
                    Reaction::Serve { pipeline, step }
                },
                None => Reaction::Refuse {
                    failure: Failure::Malformed,
                    event: ServerMessage::error("Invalid message format"),
                },
            },
            Inbound::Ping(payload) => Reaction::Pong(payload),
            Inbound::Pong => Reaction::Ignore,
            Inbound::Close => Reaction::Hangup,
            Inbound::Other => Reaction::Ignore,
        }
    }

    /// Ends the connection: the identity is unregistered, once, and nothing
    /// can be addressed to it afterwards. Returns the announcement that the
    /// user is offline, or `None` where the connection was closed before.
    pub fn close(&mut self, manager: &mut ChatConnectionManager) -> (announcement: Option<Dispatch>)
        ensures
            *final(self) == (Connection { is_open: false, ..*old(self) }),
            final(manager)@ == if old(self).is_open {
                old(manager)@.remove(old(self).identity.id)
            } else {
                old(manager)@
            },
            announcement is Some == old(self).is_open,
            old(self).is_open ==> connection_of(final(manager)@, old(self).identity.id)
                == Seq::<Recipient>::empty(),
            announcement matches Some(dispatch) ==> {
                &&& dispatch.event@ == (ServerMessageView::UserOffline {
                    user_id: old(self).identity.id,
                })
                &&& reaches_each_once(
                    dispatch.recipients@,
                    final(manager)@,
                    final(manager)@.dom(),
                )
            },
    {
        if self.is_open {
            self.is_open = false;
            Some(manager.disconnect(self.identity.id))
        } else {
            None
        }
    }
}

} // verus!
