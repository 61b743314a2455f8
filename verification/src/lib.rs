//! Relay logic between a chat platform and a topic-based message bus.
//!
//! The crate holds the decisions of the relay: how a chat message becomes a bus
//! envelope, where a voice attachment is staged, which topics an inbound message is
//! published on, and what a bus message turns into on the chat side. Network and
//! file access are left to the caller, which performs the actions decided here
//! and reports their outcome back.

pub mod chat_id;
pub mod config;
pub mod envelope;
pub mod inbound;
pub mod outbound;
pub mod staging;
