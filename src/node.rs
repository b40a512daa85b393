//! Node kinds, method tables and capability bits shared by the planner and
//! executor sides of the custom scan.
use vstd::prelude::*;

verus! {

/// The path supports a backward scan.
pub const CUSTOMPATH_SUPPORT_BACKWARD_SCAN: u32 = 0x1;

/// The path supports mark and restore of the scan position.
pub const CUSTOMPATH_SUPPORT_MARK_RESTORE: u32 = 0x2;

/// The path may run under a parallel plan (shared-memory callbacks).
pub const CUSTOMPATH_SUPPORT_PARALLEL: u32 = 0x4;

/// The tag every structure handed to the host starts with; the host
/// dispatches on it alone.
#[derive(Clone, Copy, Debug, PartialEq, Eq, Structural)]
pub enum NodeTag {
    CustomPath,
    CustomScan,
    CustomScanState,
}

/// The closed set of method tables, one per node kind.  Each stands for a
/// statically allocated, immutable record of callbacks.
#[derive(Clone, Copy, Debug, PartialEq, Eq, Structural)]
pub enum MethodTable {
    PathMethods,
    ScanMethods,
    ExecMethods,
}

/// The callbacks of the execution method table.
#[derive(Clone, Copy, Debug, PartialEq, Eq, Structural)]
pub enum ExecCallback {
    Begin,
    Exec,
    End,
    ReScan,
    MarkPos,
    RestrPos,
    EstimateDsm,
    InitializeDsm,
    ReInitializeDsm,
    InitializeWorker,
    Shutdown,
    Explain,
}

/// The node kind whose structures carry the given method table.
pub open spec fn tag_of_table(m: MethodTable) -> NodeTag {
    match m {
        MethodTable::PathMethods => NodeTag::CustomPath,
        MethodTable::ScanMethods => NodeTag::CustomScan,
        MethodTable::ExecMethods => NodeTag::CustomScanState,
    }
}

/// The method table attached to structures of the given node kind.
pub fn table_for(tag: NodeTag) -> (r: MethodTable)
    ensures
        tag_of_table(r) == tag,
{
    match tag {
        NodeTag::CustomPath => MethodTable::PathMethods,
        NodeTag::CustomScan => MethodTable::ScanMethods,
        NodeTag::CustomScanState => MethodTable::ExecMethods,
    }
}

/// The name under which the table is registered with the host.
pub open spec fn custom_name_spec(m: MethodTable) -> Seq<char> {
    match m {
        MethodTable::PathMethods => "ZomboDB Custom Path"@,
        MethodTable::ScanMethods => "ZomboDB Custom Scan"@,
        MethodTable::ExecMethods => "ZomboDB Exec"@,
    }
}

pub fn custom_name(m: MethodTable) -> (r: &'static str)
    ensures
        r@ == custom_name_spec(m),
{
    match m {
        MethodTable::PathMethods => "ZomboDB Custom Path",
        MethodTable::ScanMethods => "ZomboDB Custom Scan",
        MethodTable::ExecMethods => "ZomboDB Exec",
    }
}

/// Whether the execution method table holds an entry for the callback.
/// The required callbacks, rescan and explain are present; mark/restore,
/// the parallel callbacks and shutdown are left empty.
pub open spec fn registered_spec(cb: ExecCallback) -> bool {
    match cb {
        ExecCallback::Begin | ExecCallback::Exec | ExecCallback::End | ExecCallback::ReScan
        | ExecCallback::Explain => true,
        _ => false,
    }
}

pub fn registered(cb: ExecCallback) -> (r: bool)
    ensures
        r == registered_spec(cb),
{
    match cb {
        ExecCallback::Begin | ExecCallback::Exec | ExecCallback::End | ExecCallback::ReScan
        | ExecCallback::Explain => true,
        _ => false,
    }
}

/// The capability bit a callback depends on, or 0 where it is always
/// invoked when present.
pub open spec fn required_bit_spec(cb: ExecCallback) -> u32 {
    match cb {
        ExecCallback::MarkPos | ExecCallback::RestrPos => CUSTOMPATH_SUPPORT_MARK_RESTORE,
        ExecCallback::EstimateDsm | ExecCallback::InitializeDsm | ExecCallback::ReInitializeDsm
        | ExecCallback::InitializeWorker => CUSTOMPATH_SUPPORT_PARALLEL,
        _ => 0,
    }
}

pub fn required_bit(cb: ExecCallback) -> (r: u32)
    ensures
        r == required_bit_spec(cb),
{
    match cb {
        ExecCallback::MarkPos | ExecCallback::RestrPos => CUSTOMPATH_SUPPORT_MARK_RESTORE,
        ExecCallback::EstimateDsm | ExecCallback::InitializeDsm | ExecCallback::ReInitializeDsm
        | ExecCallback::InitializeWorker => CUSTOMPATH_SUPPORT_PARALLEL,
        _ => 0,
    }
}

/// Whether the host may invoke the callback on a node with the given flags:
/// the table must hold it, and an optional one needs its capability bit.
pub open spec fn may_invoke_spec(flags: u32, cb: ExecCallback) -> bool {
    registered_spec(cb) && (required_bit_spec(cb) == 0 || flags & required_bit_spec(cb) != 0)
}

pub fn may_invoke(flags: u32, cb: ExecCallback) -> (r: bool)
    ensures
        r == may_invoke_spec(flags, cb),
{
    let bit = required_bit(cb);
    registered(cb) && (bit == 0 || flags & bit != 0)
}

} // verus!
