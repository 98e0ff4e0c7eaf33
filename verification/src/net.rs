//! What a TCP connect attempt says about a port.

use vstd::prelude::*;

use crate::types::PortState;

verus! {

/// How a TCP connect attempt ended.
#[derive(Debug, Clone, Copy, PartialEq, Eq, Structural)]
pub enum ConnectOutcome {
    /// The three-way handshake completed.
    Connected,
    /// The connection was actively refused (RST).
    Refused,
    /// Another error: unreachable network, reset, and the like.
    Failed,
    /// No answer before the timeout.
    TimedOut,
}

/// The state of a port after a full TCP connect attempt: open when the
/// connection succeeds, closed when refused, filtered otherwise.
pub fn connect_scan_state(outcome: ConnectOutcome) -> (s: PortState)
    ensures
        s == match outcome {
            ConnectOutcome::Connected => PortState::Open,
            ConnectOutcome::Refused => PortState::Closed,
            _ => PortState::Filtered,
        },
{
    match outcome {
        ConnectOutcome::Connected => PortState::Open,
        ConnectOutcome::Refused => PortState::Closed,
        ConnectOutcome::Failed => PortState::Filtered,
        ConnectOutcome::TimedOut => PortState::Filtered,
    }
}

} // verus!
