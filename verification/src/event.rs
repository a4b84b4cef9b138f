//! Events an agent reports about its connection to the ngrok service.

use vstd::prelude::*;

verus! {

/// Events emitted by an agent: lifecycle changes of its session.
#[derive(Debug, Clone)]
#[non_exhaustive]
pub enum Event {
    /// The agent successfully connected to the ngrok service.
    AgentConnectSucceeded,
    /// The agent disconnected from the ngrok service.
    AgentDisconnected {
        /// The error that caused the disconnection, if any.
        error: Option<String>,
    },
    /// A heartbeat response was received from the ngrok service.
    AgentHeartbeatReceived {
        /// The round-trip latency of the heartbeat, in nanoseconds.
        latency: u128,
    },
}

} // verus!
