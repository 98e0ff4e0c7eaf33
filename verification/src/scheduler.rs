//! Scan task scheduling — divides targets into work units.

use vstd::prelude::*;

use crate::addr::IpAddr;
use crate::id::SessionId;
use crate::ports::PortRange;

verus! {

/// A single unit of work for the scanner.
#[derive(Debug, Clone)]
pub struct ScanTask {
    /// Target IP address.
    pub target: IpAddr,
    /// Port range to scan on this target.
    pub ports: PortRange,
    /// Session that owns it.
    pub session_id: SessionId,
}

impl ScanTask {
    /// Create a new task.
    pub fn new(target: IpAddr, ports: PortRange, session_id: SessionId) -> (t: Self)
        ensures
            t.target == target,
            t.ports@ == ports@,
            t.session_id == session_id,
    {
        ScanTask { target, ports, session_id }
    }
}

/// One task per target, in target order, each with the given ports and session.
pub open spec fn tasks_match(tasks: Seq<ScanTask>, targets: Seq<IpAddr>, ports: Seq<(u16, u16)>, session: SessionId) -> bool {
    &&& tasks.len() == targets.len()
    &&& forall|i: int| 0 <= i < tasks.len() ==> {
        &&& #[trigger] tasks[i].target == targets[i]
        &&& tasks[i].ports@ == ports
        &&& tasks[i].session_id == session
    }
}

fn make_tasks(targets: Vec<IpAddr>, ports: &PortRange, session_id: SessionId) -> (v: Vec<ScanTask>)
    ensures
        tasks_match(v@, targets@, ports@, session_id),
{
    let mut out: Vec<ScanTask> = Vec::new();
    let mut i: usize = 0;
    while i < targets.len()
        invariant
            i <= targets@.len(),
            tasks_match(out@, targets@.take(i as int), ports@, session_id),
        decreases targets.len() - i,
    {
        out.push(ScanTask::new(targets[i], ports.clone(), session_id));
        i = i + 1;
    }
    proof {
        assert(targets@.take(targets@.len() as int) =~= targets@);
    }
    out
}

/// Divides a list of target IPs into `ScanTask` work units.
pub struct ScanScheduler {
    default_ports: PortRange,
}

impl ScanScheduler {
    /// The port range given to every task by `schedule`.
    pub closed spec fn ports(&self) -> Seq<(u16, u16)> {
        self.default_ports@
    }

    /// Create a scheduler with the given default port range.
    pub fn new(default_ports: PortRange) -> (s: Self)
        ensures
            s.ports() == default_ports@,
    {
        ScanScheduler { default_ports }
    }

    /// Create with top-1024 ports as the default.
    pub fn with_top_ports() -> (s: Self)
        ensures
            s.ports() == seq![(1u16, 1024u16)],
    {
        Self::new(PortRange::top_1000())
    }

    /// Schedule one `ScanTask` per target IP.
    pub fn schedule(&self, targets: Vec<IpAddr>, session_id: SessionId) -> (v: Vec<ScanTask>)
        ensures
            tasks_match(v@, targets@, self.ports(), session_id),
    {
        make_tasks(targets, &self.default_ports, session_id)
    }

    /// Schedule tasks with a per-target port override.
    pub fn schedule_with_ports(&self, targets: Vec<IpAddr>, ports: PortRange, session_id: SessionId) -> (v: Vec<ScanTask>)
        ensures
            tasks_match(v@, targets@, ports@, session_id),
    {
        make_tasks(targets, &ports, session_id)
    }
}

impl Default for ScanScheduler {
    fn default() -> (s: Self)
        ensures
            s.ports() == seq![(1u16, 1024u16)],
    {
        Self::with_top_ports()
    }
}

} // verus!
