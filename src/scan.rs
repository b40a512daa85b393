//! The scan state machine: the per-execution state created from a compiled
//! plan and driven by the host through begin, fetch, rescan, mark/restore,
//! the parallel callbacks, shutdown and end.
use vstd::prelude::*;
use crate::node::{MethodTable, NodeTag};
use crate::plan::{CompiledScanPlan, ScanPlanView};

verus! {

/// Bytes of shared memory the scan needs under a parallel plan.
pub const SHARED_STATE_SIZE: usize = 0;

/// Where a scan is in its lifecycle.
#[derive(Clone, Copy, Debug, PartialEq, Eq, Structural)]
pub enum Phase {
    Created,
    Began,
    Running,
    ShuttingDown,
    Ended,
}

/// The read position of a scan.
#[derive(Clone, Copy, Debug, PartialEq, Eq, Structural)]
pub struct Cursor {
    /// Rows returned so far.
    pub position: u64,
    /// The end of the data has been reached.
    pub exhausted: bool,
}

/// The per-execution state of one custom scan.
#[derive(Clone, Copy, Debug, PartialEq, Eq, Structural)]
pub struct ScanState {
    pub tag: NodeTag,
    pub flags: u32,
    pub methods: MethodTable,
    pub phase: Phase,
    pub cursor: Cursor,
    /// The position saved by the last mark, if any.
    pub marked: Option<Cursor>,
}

pub open spec fn fresh_cursor() -> Cursor {
    Cursor { position: 0, exhausted: false }
}

/// A new state: tagged, with the plan's flags and the execution methods;
/// everything else is at its zero value.
pub open spec fn create_spec(plan: ScanPlanView) -> ScanState {
    ScanState {
        tag: NodeTag::CustomScanState,
        flags: plan.flags,
        methods: MethodTable::ExecMethods,
        phase: Phase::Created,
        cursor: fresh_cursor(),
        marked: None,
    }
}

pub open spec fn begin_spec(s: ScanState) -> ScanState {
    if s.phase == Phase::Ended {
        s
    } else {
        ScanState { phase: Phase::Began, cursor: fresh_cursor(), marked: None, ..s }
    }
}

/// The state after a fetch.  No data source backs the scan, so every fetch
/// reaches the end of the data.
pub open spec fn next_spec(s: ScanState) -> ScanState {
    ScanState {
        phase: if s.phase == Phase::Ended { Phase::Ended } else { Phase::Running },
        cursor: Cursor { exhausted: true, ..s.cursor },
        ..s
    }
}

pub open spec fn rescan_spec(s: ScanState) -> ScanState {
    ScanState {
        phase: if s.phase == Phase::Ended { Phase::Ended } else { Phase::Running },
        cursor: fresh_cursor(),
        marked: None,
        ..s
    }
}

pub open spec fn mark_spec(s: ScanState) -> ScanState {
    ScanState { marked: Some(s.cursor), ..s }
}

pub open spec fn restore_spec(s: ScanState) -> ScanState {
    match s.marked {
        Some(c) => ScanState { cursor: c, ..s },
        None => s,
    }
}

pub open spec fn shutdown_spec(s: ScanState) -> ScanState {
    if s.phase == Phase::Ended {
        s
    } else {
        ScanState { phase: Phase::ShuttingDown, ..s }
    }
}

pub open spec fn end_spec(s: ScanState) -> ScanState {
    ScanState {
        phase: Phase::Ended,
        cursor: Cursor { position: 0, exhausted: true },
        marked: None,
        ..s
    }
}

/// The state has ended and holds nothing of a scan: no position, no mark.
pub open spec fn released(s: ScanState) -> bool {
    &&& s.phase == Phase::Ended
    &&& s.cursor == Cursor { position: 0, exhausted: true }
    &&& s.marked is None
}

/// The state is well formed as the host sees it: tagged as a scan state and
/// dispatched through the execution method table.
pub open spec fn state_well_formed(s: ScanState) -> bool {
    s.tag == NodeTag::CustomScanState && s.methods == MethodTable::ExecMethods
}

/// The state after the given number of rescans.
pub open spec fn rescanned(s: ScanState, n: nat) -> ScanState
    decreases n,
{
    if n == 0 {
        s
    } else {
        rescan_spec(rescanned(s, (n - 1) as nat))
    }
}

/// The state after the given number of fetches.
pub open spec fn fetched(s: ScanState, n: nat) -> ScanState
    decreases n,
{
    if n == 0 {
        s
    } else {
        next_spec(fetched(s, (n - 1) as nat))
    }
}

impl ScanState {
    /// Creates the state for a compiled plan: tagged, with the plan's flags
    /// and the execution methods attached, and nothing else set up.
    pub fn create(plan: &CompiledScanPlan) -> (r: ScanState)
        ensures
            r == create_spec(plan@),
            state_well_formed(r),
    {
        ScanState {
            tag: NodeTag::CustomScanState,
            flags: plan.flags,
            methods: MethodTable::ExecMethods,
            phase: Phase::Created,
            cursor: Cursor { position: 0, exhausted: false },
            marked: None,
        }
    }

    /// Completes the set-up of the scan; the cursor starts at the beginning.
    pub fn begin(&mut self, eflags: i32)
        ensures
            *final(self) == begin_spec(*old(self)),
    {
        if self.phase != Phase::Ended {
            self.phase = Phase::Began;
            self.cursor = Cursor { position: 0, exhausted: false };
            self.marked = None;
        }
    }

    /// Fetches the next row; `None` is the end of the data.  No data source
    /// backs this scan, so the end is reached at once.
    pub fn next(&mut self) -> (r: Option<u64>)
        ensures
            r is None,
            *final(self) == next_spec(*old(self)),
    {
        if self.phase != Phase::Ended {
            self.phase = Phase::Running;
        }
        self.cursor.exhausted = true;
        None
    }

    /// Rewinds the scan to its beginning, as a fresh begin would leave it.
    pub fn rescan(&mut self)
        ensures
            *final(self) == rescan_spec(*old(self)),
    {
        if self.phase != Phase::Ended {
            self.phase = Phase::Running;
        }
        self.cursor = Cursor { position: 0, exhausted: false };
        self.marked = None;
    }

    /// Saves the current position for a later restore.
    pub fn mark_pos(&mut self)
        ensures
            *final(self) == mark_spec(*old(self)),
    {
        self.marked = Some(self.cursor);
    }

    /// Returns to the position saved by the last mark; without one, nothing
    /// changes.
    pub fn restr_pos(&mut self)
        ensures
            *final(self) == restore_spec(*old(self)),
    {
        match self.marked {
            Some(c) => {
                self.cursor = c;
            },
            None => {},
        }
    }

    /// Releases what the scan holds ahead of an early end.
    pub fn shutdown(&mut self)
        ensures
            *final(self) == shutdown_spec(*old(self)),
    {
        if self.phase != Phase::Ended {
            self.phase = Phase::ShuttingDown;
        }
    }

    /// Ends the scan from any phase, whether or not it began.
    pub fn end(&mut self)
        ensures
            *final(self) == end_spec(*old(self)),
            released(*final(self)),
    {
        self.phase = Phase::Ended;
        self.cursor = Cursor { position: 0, exhausted: true };
        self.marked = None;
    }

    /// Extra properties shown by EXPLAIN for the scan: it keeps no private
    /// state worth showing.
    pub fn explain(&self) -> (r: Vec<(&'static str, u64)>)
        ensures
            r@ == Seq::<(&'static str, u64)>::empty(),
    {
        Vec::new()
    }

    /// The bytes of shared memory the scan needs under a parallel plan.
    pub fn estimate_dsm(&self) -> (r: usize)
        ensures
            r == SHARED_STATE_SIZE,
    {
        SHARED_STATE_SIZE
    }

    /// Sets up the shared region on the leader; the scan shares nothing, so
    /// the region is left as it is, whatever its size.
    pub fn initialize_dsm(&self, region: &mut Vec<u8>)
        ensures
            final(region)@ == old(region)@,
    {
    }

    /// Resets the shared region before a parallel rescan, leaving the
    /// scan's local state to `rescan`.
    pub fn reinitialize_dsm(&self, region: &mut Vec<u8>)
        ensures
            final(region)@ == old(region)@,
    {
    }

    /// Attaches a worker's state to the leader's region; it may run any
    /// number of times.
    pub fn initialize_worker(&mut self, region: &Vec<u8>)
        ensures
            *final(self) == *old(self),
    {
    }
}

/// Ending a freshly created scan, with no begin or fetch in between, leaves
/// it ended and holding nothing; ending it again changes nothing.
pub proof fn law_create_then_end(plan: ScanPlanView)
    ensures
        released(end_spec(create_spec(plan))),
        state_well_formed(end_spec(create_spec(plan))),
        end_spec(end_spec(create_spec(plan))) == end_spec(create_spec(plan)),
{
}

/// Any number of rescans keeps the node tag, the method table and the flags.
pub proof fn law_rescan_keeps_identity(s: ScanState, n: nat)
    ensures
        rescanned(s, n).tag == s.tag,
        rescanned(s, n).methods == s.methods,
        rescanned(s, n).flags == s.flags,
    decreases n,
{
    if n > 0 {
        law_rescan_keeps_identity(s, (n - 1) as nat);
    }
}

/// Once a fetch has returned the end of the data, further fetches leave the
/// state as it is, and each of them returns the end again.
pub proof fn law_end_of_data_is_stable(s: ScanState, n: nat)
    ensures
        fetched(next_spec(s), n) == next_spec(s),
    decreases n,
{
    if n > 0 {
        law_end_of_data_is_stable(s, (n - 1) as nat);
    }
}

} // verus!
