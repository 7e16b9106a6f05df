//! What every call of an operation comes to, said of what goes in and what comes out.
//!
//! `call_ensures(f, arguments, result)` holds of the calls that the contract of `f` allows, so that
//! a law which starts from it holds of every call.
pub mod connections;
pub mod peers;
pub mod talk;
pub mod wire;
