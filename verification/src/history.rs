//! Diff engine and asset timeline records.

use vstd::prelude::*;

use crate::addr::IpAddr;
use crate::clock::Timestamp;
use crate::id::{HostId, SessionId};
use crate::types::{PortState, Protocol};

verus! {

/// Errors from the diff engine.
#[derive(Debug, Clone, PartialEq, Eq)]
pub enum HistoryError {
    /// The specified session could not be found for comparison.
    SessionNotFound(String),
}

/// A specific change detected on a port between two scans.
#[derive(Debug, Clone, Copy, PartialEq, Eq, Structural)]
pub struct PortChange {
    /// IP of the host.
    pub ip: IpAddr,
    /// The port number.
    pub port: u16,
    /// Protocol (TCP/UDP).
    pub protocol: Protocol,
    /// State in the older scan.
    pub previous_state: Option<PortState>,
    /// State in the newer scan.
    pub current_state: Option<PortState>,
}

/// The result of comparing two scan sessions.
#[derive(Debug, Clone)]
pub struct ScanDiff {
    /// Hosts discovered in the current scan that were offline in the previous.
    pub new_hosts: Vec<IpAddr>,
    /// Hosts online in the previous scan but offline in the current.
    pub removed_hosts: Vec<IpAddr>,
    /// Delta of port states (e.g. Open -> Closed, Closed -> Open).
    pub port_changes: Vec<PortChange>,
    /// Textual summaries of service changes (e.g. "nginx 1.18" -> "nginx 1.20").
    pub service_changes: Vec<String>,
}

impl ScanDiff {
    /// No change of any kind.
    pub open spec fn is_empty_diff(&self) -> bool {
        self.new_hosts@.len() == 0 && self.removed_hosts@.len() == 0
            && self.port_changes@.len() == 0 && self.service_changes@.len() == 0
    }
}

impl Default for ScanDiff {
    fn default() -> (d: Self)
        ensures
            d.is_empty_diff(),
    {
        ScanDiff { new_hosts: Vec::new(), removed_hosts: Vec::new(), port_changes: Vec::new(), service_changes: Vec::new() }
    }
}

/// The diff engine correlates point-in-time observations.
pub struct DiffEngine;

impl DiffEngine {
    /// Create a new diff engine.
    pub fn new() -> (e: Self) {
        DiffEngine
    }

    /// Compare two sessions. No observations are stored yet, so every
    /// comparison finds no change.
    pub fn compare(&self, previous: SessionId, current: SessionId) -> (r: Result<ScanDiff, HistoryError>)
        ensures
            r matches Ok(d) && d.is_empty_diff(),
    {
        Ok(ScanDiff::default())
    }
}

impl Default for DiffEngine {
    fn default() -> (e: Self) {
        DiffEngine
    }
}

/// Represents the history of a single asset over time.
#[derive(Debug, Clone, Copy, PartialEq, Eq, Structural)]
pub struct AssetTimeline {
    /// The canonical Host ID.
    pub host_id: HostId,
    /// The first time this asset was ever seen.
    pub first_seen: Timestamp,
    /// The most recent time this asset was scanned.
    pub last_seen: Timestamp,
    /// Total number of scans this asset has participated in.
    pub scan_count: u32,
}

} // verus!
