//! What the node knows of its peers, and what it decides about connections.
pub mod controller;
pub mod counts;
pub mod peer;
pub mod table;

pub use crate::network::peer::IP;
