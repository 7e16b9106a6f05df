//! The decisions of a peer-to-peer node: which peers it knows and in which status, which
//! connections it opens and admits, and how it talks to one connected peer.
//!
//! Nothing here waits, reads a socket or opens a file. The program around the library does that
//! and hands the outcome in as plain values.
pub mod clock;
pub mod event;
pub mod frame;
pub mod json;
pub mod laws;
pub mod network;
pub mod payload;
pub mod session;
pub mod text;
