//! The socket.io layer of a server: namespaces, packets, room operators and
//! message handlers, on top of an engine.io transport.
//!
//! The decisions of the layer are functions with contracts. What has to be done
//! on the transport (connect, deliver, close, wait) is handed back to the caller
//! as a value, and the outcome of it is handed in again.

pub mod adapter;
pub mod client;
pub mod config;
pub mod errors;
pub mod handler;
pub mod json;
pub mod laws;
pub mod layer;
pub mod ns;
pub mod operators;
pub mod packet;
pub mod registry;
pub mod relay;
pub mod sid;
pub mod time;
