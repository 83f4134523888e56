//! Transport capability contracts for a request/response protocol layered on a
//! stream-multiplexing transport.
//!
//! The traits here describe what any transport engine must offer: connections,
//! stream openers, send and receive halves, bidirectional streams, datagrams and
//! a uniform error classification. Each capability carries a small abstract
//! model (spec functions) over which its operations are specified.

pub mod error;
pub mod stream_id;
pub mod buf;
pub mod poll;
pub mod stream;
pub mod connection;
