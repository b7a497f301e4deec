//! Core of a real-time message relay.
//!
//! Clients hold a persistent duplex connection to the relay, and every text or
//! binary frame that one client sends is fanned out to all the other connected
//! clients. This crate holds the relay's decisions and proves what they
//! promise; sockets, tasks and timers live with the caller, which feeds events
//! in and carries actions out.
//!
//! - [`message`]: frames and the messages that are forwarded.
//! - [`queue`]: the bounded outbound queue of a session and its drop policy.
//! - [`session`]: a session and the states it moves through.
//! - [`registry`]: the sessions that are active, by id.
//! - [`dispatcher`]: the fan-out of one message to the other sessions.
//! - [`relay`]: acceptor, session loops and dispatcher as one state machine.
//! - [`lifecycle`]: every session's life over a run of the relay.
//! - [`ordering`]: the order in which a session gets its messages.
//! - [`endpoint`]: the address of a relay.
//! - [`client`]: a client that reconnects with a fixed back-off.

pub mod message;
pub mod queue;
pub mod session;
pub mod registry;
pub mod dispatcher;
pub mod relay;
pub mod lifecycle;
pub mod ordering;
pub mod endpoint;
pub mod client;
