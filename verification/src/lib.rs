//! A realtime messaging engine: a topic registry that fans published events
//! out to subscribers, the lifecycle of one connection as a state machine,
//! the two pumps that move frames in and out, and the chat rules bound to it.
//!
//! The engine performs no I/O. A driver feeds it events (a token arrived, a
//! hook returned, a pump ended) and carries out the actions it answers with.

pub mod text;
pub mod channel;
pub mod broadcaster;
pub mod session;
pub mod session_laws;
pub mod message;
pub mod chat;
pub mod inbound;
pub mod outbound;
pub mod auth;
