//! A relay between a chat transport and a conversational backend.
//!
//! The library decides; it does not wait, send or receive. A conversation, a
//! round trip, an upload and the description of an image are each a function
//! from where things stand and what has happened to where they stand next
//! and what is to be done. Whoever runs them does what is asked, against the
//! lock, the store and the backend, and hands back what happened.
//!
//! - [`orchestrator`]: a conversation, under the lock, with helper bots for
//!   the tools that an answer may call.
//! - [`round`]: one round trip with the session read before and advanced
//!   after.
//! - [`session`], [`store`]: the continuity of a conversation in the shared
//!   store, and what the writes do to it.
//! - [`stream`]: the answer of the backend, gathered from a stream of events.
//! - [`tool`]: the marker by which an answer calls for a tool.
//! - [`upload`], [`poll`], [`caption`]: an image on its way to a description.
//! - [`request`], [`dto`]: what is sent to the backend.
//! - [`handler`], [`command`], [`message`], [`report`]: the chat transport's
//!   side: which messages are answered, what commands ask for, what goes
//!   back.
//! - [`settings`], [`config`]: what the relay is run with.
//! - [`laws`]: what holds of every conversation.
//! - [`json`], [`token`], [`text`], [`words`]: documents, tokens and text.

pub mod caption;
pub mod command;
pub mod config;
pub mod dto;
pub mod handler;
pub mod json;
pub mod laws;
pub mod message;
pub mod orchestrator;
pub mod poll;
pub mod report;
pub mod request;
pub mod round;
pub mod session;
pub mod settings;
pub mod store;
pub mod stream;
pub mod text;
pub mod token;
pub mod tool;
pub mod upload;
pub mod words;
