//! A sans-I/O client core for a push-event gateway: frame decoding, the
//! heartbeat liveness rule, the session state machine, the mapping from
//! dispatch frames to domain events and the connection supervisor, each with a
//! machine-checked contract.

pub mod api;
pub mod client;
pub mod decimal;
pub mod event;
pub mod frame;
pub mod heartbeat;
pub mod json;
pub mod laws;
pub mod message;
pub mod outbound;
pub mod payload;
pub mod session;
pub mod text;
pub mod token_storage;
