//! Configuration of the layer.
use crate::time::whole_seconds;
use std::time::Duration;
use vstd::prelude::*;

verus! {

/// How many seconds to wait for an acknowledgement by default
pub const DEFAULT_ACK_TIMEOUT_SECS: u64 = 5;

/// The configuration that every namespace gets.
#[derive(Debug)]
pub struct SocketIoConfig {
    /// How long a socket may stay without connecting to a namespace
    pub connect_timeout: Duration,
    /// How long to wait for an acknowledgement for which no other timeout is set,
    /// 5 seconds by default
    pub ack_timeout: Duration,
}

impl SocketIoConfig {
    /// A configuration with the default timeout for acknowledgements.
    pub fn new(connect_timeout: Duration) -> (config: SocketIoConfig)
        ensures
            config.connect_timeout == connect_timeout,
            config.ack_timeout == whole_seconds(5),
    {
        SocketIoConfig {
            connect_timeout,
            ack_timeout: Duration::from_secs(DEFAULT_ACK_TIMEOUT_SECS),
        }
    }
}

} // verus!
