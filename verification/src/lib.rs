//! The decision logic of a chat bot that greets and bids farewell to chat
//! members and relays text messages through a language-detection and a
//! translation service.
//!
//! The library performs no input or output. A caller hands it what arrived
//! (a chat event, the answer of an endpoint) and gets back what to do next
//! (a request to send, a reply to post). Every function carries a contract
//! that Verus proves.

pub mod config;
pub mod detect;
pub mod endpoint;
pub mod exchange;
pub mod language;
pub mod membership;
pub mod text;
pub mod translation;
pub mod wire;
