//! Error kinds of the supervisor.

use vstd::prelude::*;
use crate::ports::{dec_str, port_to_string};

verus! {

/// Everything the supervisor can report to a caller.
///
/// Validation errors (`InvalidPortNumber`) are raised before any process or
/// filesystem side effect; `PortInUse` is raised by the preflight check
/// before a spawn is attempted; `NotRunning` answers a stop request when no
/// worker is active; `StopFailed` reports a prior worker that survived the
/// whole stop escalation.
#[derive(Debug, Clone, PartialEq, Eq)]
pub enum NodeError {
    /// A required TCP port is already bound by someone else.
    PortInUse(u16),
    /// A port argument did not parse as a 16-bit unsigned integer.
    InvalidPortNumber,
    /// The worker binary was not found at the resolved path.
    ExecutableNotFound(String),
    /// The operating system refused to spawn the worker.
    SpawnFailed(String),
    /// The worker did not exit within the graceful timeout.
    GracefulStopTimedOut,
    /// A stop was requested while no worker was running.
    NotRunning,
    /// A prior worker could not be stopped within the overall timeout.
    StopFailed,
}

/// The descriptive text a caller is shown for each error.
pub open spec fn error_message(e: NodeError) -> Seq<char> {
    match e {
        NodeError::PortInUse(port) => "Port "@ + dec_str(port as nat)
            + " is already in use. Please make sure no other node is running or try a different port."@,
        NodeError::InvalidPortNumber => "Invalid port number"@,
        NodeError::ExecutableNotFound(path) => "rgb-lightning-node executable not found at: "@
            + path@,
        NodeError::SpawnFailed(detail) => "Failed to spawn rgb-lightning-node process: "@
            + detail@,
        NodeError::GracefulStopTimedOut => "Graceful shutdown timed out"@,
        NodeError::NotRunning => "RGB Lightning Node is not running."@,
        NodeError::StopFailed =>
            "Failed to stop existing node process. Please try restarting the application."@,
    }
}

impl NodeError {
    /// Renders the error as the descriptive message callers expect.
    pub fn message(&self) -> (r: String)
        ensures
            r@ == error_message(*self),
    {
        match self {
            NodeError::PortInUse(port) => {
                let mut s = String::from_str("Port ");
                s.append(port_to_string(*port).as_str());
                s.append(
                    " is already in use. Please make sure no other node is running or try a different port.",
                );
                s
            },
            NodeError::InvalidPortNumber => String::from_str("Invalid port number"),
            NodeError::ExecutableNotFound(path) => {
                let mut s = String::from_str("rgb-lightning-node executable not found at: ");
                s.append(path.as_str());
                s
            },
            NodeError::SpawnFailed(detail) => {
                let mut s = String::from_str("Failed to spawn rgb-lightning-node process: ");
                s.append(detail.as_str());
                s
            },
            NodeError::GracefulStopTimedOut => String::from_str("Graceful shutdown timed out"),
            NodeError::NotRunning => String::from_str("RGB Lightning Node is not running."),
            NodeError::StopFailed => String::from_str(
                "Failed to stop existing node process. Please try restarting the application.",
            ),
        }
    }
}

} // verus!
