//! The plan compiler: turns the chosen custom path into a custom scan plan
//! node.
use vstd::prelude::*;
use crate::node::{MethodTable, NodeTag};
use crate::path::{CandidatePath, Clause, RelInfo};

verus! {

/// Whether the restriction clauses are rechecked on the rows the scan
/// returns, or are taken as answered in full by the pushed-down search.
#[derive(Clone, Copy, Debug, PartialEq, Eq, Structural)]
pub enum ResidualFilter {
    /// No residual filter: the search answers the clauses.
    PushedDown,
    /// Keep the clauses that reference columns as the plan's filter.
    Recheck,
}

/// The executable form of a chosen custom path.
#[derive(Debug)]
pub struct CompiledScanPlan {
    pub tag: NodeTag,
    /// The capability flags, as the path advertised them.
    pub flags: u32,
    /// The range-table index of the scanned relation.
    pub scanrelid: u32,
    /// The host's handle for the output target list.
    pub targetlist: u64,
    /// The residual filter: the host's handles for its clause expressions.
    pub qual: Vec<u64>,
    pub methods: MethodTable,
}

pub struct ScanPlanView {
    pub tag: NodeTag,
    pub flags: u32,
    pub scanrelid: u32,
    pub targetlist: u64,
    pub qual: Seq<u64>,
    pub methods: MethodTable,
}

impl View for CompiledScanPlan {
    type V = ScanPlanView;

    open spec fn view(&self) -> ScanPlanView {
        ScanPlanView {
            tag: self.tag,
            flags: self.flags,
            scanrelid: self.scanrelid,
            targetlist: self.targetlist,
            qual: self.qual@,
            methods: self.methods,
        }
    }
}

/// The expressions of the clauses that are not pseudo-constants, in order.
pub open spec fn actual_clauses(s: Seq<Clause>) -> Seq<u64>
    decreases s.len(),
{
    if s.len() == 0 {
        Seq::empty()
    } else if s.last().pseudoconstant {
        actual_clauses(s.drop_last())
    } else {
        actual_clauses(s.drop_last()).push(s.last().expr)
    }
}

pub fn extract_actual_clauses(clauses: &Vec<Clause>) -> (r: Vec<u64>)
    ensures
        r@ == actual_clauses(clauses@),
{
    let mut out: Vec<u64> = Vec::new();
    let mut i: usize = 0;
    while i < clauses.len()
        invariant
            i <= clauses@.len(),
            out@ == actual_clauses(clauses@.subrange(0, i as int)),
        decreases clauses@.len() - i,
    {
        proof {
            assert(clauses@.subrange(0, i + 1).drop_last() =~= clauses@.subrange(0, i as int));
        }
        if !clauses[i].pseudoconstant {
            out.push(clauses[i].expr);
        }
        i = i + 1;
    }
    proof {
        assert(clauses@.subrange(0, clauses@.len() as int) =~= clauses@);
    }
    out
}

/// The plan compiled from a path for the relation.
pub open spec fn compile_spec(
    relid: u32,
    path: CandidatePath,
    tlist: u64,
    clauses: Seq<Clause>,
    residual: ResidualFilter,
) -> ScanPlanView {
    ScanPlanView {
        tag: NodeTag::CustomScan,
        flags: path.flags,
        scanrelid: relid,
        targetlist: tlist,
        qual: match residual {
            ResidualFilter::PushedDown => Seq::empty(),
            ResidualFilter::Recheck => actual_clauses(clauses),
        },
        methods: MethodTable::ScanMethods,
    }
}

/// Compiles the chosen path into a custom scan plan node that scans the
/// relation, emits the target list and carries the path's flags.
pub fn plan_custom_path(
    rel: &RelInfo,
    best_path: &CandidatePath,
    tlist: u64,
    clauses: &Vec<Clause>,
    residual: ResidualFilter,
) -> (r: CompiledScanPlan)
    ensures
        r@ == compile_spec(rel.relid, *best_path, tlist, clauses@, residual),
{
    let qual = match residual {
        ResidualFilter::PushedDown => Vec::new(),
        ResidualFilter::Recheck => extract_actual_clauses(clauses),
    };
    CompiledScanPlan {
        tag: NodeTag::CustomScan,
        flags: best_path.flags,
        scanrelid: rel.relid,
        targetlist: tlist,
        qual,
        methods: MethodTable::ScanMethods,
    }
}

/// Compiling a path keeps its capability flags, scans the path's parent
/// relation, and yields a node tagged and dispatched as a custom scan.
pub proof fn law_compile_preserves_path(
    rel: RelInfo,
    p: CandidatePath,
    tlist: u64,
    clauses: Seq<Clause>,
    residual: ResidualFilter,
)
    requires
        p.parent == rel.relid,
    ensures
        compile_spec(rel.relid, p, tlist, clauses, residual).flags == p.flags,
        compile_spec(rel.relid, p, tlist, clauses, residual).scanrelid == p.parent,
        compile_spec(rel.relid, p, tlist, clauses, residual).tag == NodeTag::CustomScan,
        compile_spec(rel.relid, p, tlist, clauses, residual).methods == MethodTable::ScanMethods,
{
}

} // verus!
