//! The builder API: the protocol by which a block proposer and a block builder
//! exchange bids, with fork-aware dispatch of the wire types and the decisions
//! that bind the protocol to HTTP requests and responses.
mod text;

pub mod types;
pub mod bellatrix;
pub mod fork;
pub mod path;
pub mod error;
pub mod dispatch;
pub mod server;
pub mod client;
