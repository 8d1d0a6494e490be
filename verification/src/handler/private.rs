//! Markers that tell the implementations of the handler traits apart.
use vstd::prelude::*;

verus! {

/// Extraction by [`FromMessageParts`](super::message::FromMessageParts)
#[derive(Debug, Clone, Copy)]
pub enum ViaParts {
    Marker,
}

/// Extraction by [`FromMessage`](super::message::FromMessage)
#[derive(Debug, Clone, Copy)]
pub enum ViaRequest {
    Marker,
}

/// A handler that does its work when it is called
#[derive(Debug, Clone, Copy)]
pub enum Sync {
    Marker,
}

/// A handler that returns a future to be spawned
#[derive(Debug, Clone, Copy)]
pub enum Async {
    Marker,
}

} // verus!
