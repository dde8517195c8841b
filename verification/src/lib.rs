//! A WebTransport client whose state and decisions are verified.
pub mod channel;
pub mod client;
pub mod connect;
pub mod laws;
pub mod operations;
pub mod read_task;
pub mod text;
