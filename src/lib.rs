//! The message loop of a language server, as a verified state machine: it
//! classifies each inbound message, keeps the registry of outstanding
//! requests and the shutdown flag, routes messages to the first matching
//! registration, and builds the responses. Receiving messages, decoding
//! their params and running the handlers are left to the caller.

pub mod config;
pub mod dispatch;
pub mod path;
pub mod protocol;
pub mod registry;
pub mod server;
