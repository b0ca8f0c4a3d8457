//! Realtime chat delivery.
//!
//! The library decides what a chat server does with the frames of its live
//! connections: which frames are well formed, whether their sender may act
//! in the chat, what is asked of the relational store and in what order, and
//! to which connections an event goes. It performs no input or output. The
//! caller reads the frames, makes the calls on the store that a
//! [`pipeline::Step`] names, and writes the events to the connections that a
//! [`registry::Dispatch`] names.
//!
//! - [`protocol`]: the frames of clients and server.
//! - [`decode`]: from the text of a frame to the action it stands for.
//! - [`authorization`]: who may act in a chat.
//! - [`store`]: the requests to the store and its answers.
//! - [`pipeline`]: the stages in which a frame is served.
//! - [`registry`]: the registered connections and the fan-out of events.
//! - [`connection`]: the life of one connection.
//! - [`model`]: the store as it is expected to behave, and what follows for
//!   whole frames.
//! - [`records`]: records of the application around the chat.

pub mod authorization;
pub mod connection;
pub mod decode;
pub mod json;
pub mod model;
pub mod pipeline;
pub mod protocol;
pub mod records;
pub mod registry;
pub mod store;
pub mod text;
