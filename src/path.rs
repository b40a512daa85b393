//! The planner side: the model of a base relation and its restriction
//! clauses, and the proposal of a custom access path when the recognized
//! search operator restricts the relation.
use vstd::prelude::*;
use crate::node::{MethodTable, NodeTag};

verus! {

/// The catalog's "no such object" identifier.
pub const INVALID_OID: u32 = 0;

/// One restriction clause of a relation, as far as this provider reads it.
#[derive(Clone, Copy, Debug, PartialEq, Eq, Structural)]
pub struct Clause {
    /// The operator of an operator expression, `None` for any other clause.
    pub opno: Option<u32>,
    /// Whether the clause is a pseudo-constant (it references no column).
    pub pseudoconstant: bool,
    /// The host's handle for the clause expression.
    pub expr: u64,
}

/// A base relation under planning.
#[derive(Debug)]
pub struct RelInfo {
    /// The relation's range-table index.
    pub relid: u32,
    /// The host's handle for the relation's target list.
    pub reltarget: u64,
    /// The host's handle for the relation's lateral references, from which
    /// the host derives a path's parameter info.
    pub lateral_relids: u64,
    /// The restriction clauses gathered for the relation.
    pub baserestrictinfo: Vec<Clause>,
}

/// A proposed custom access path.  The cost and row estimates stay at the
/// host's defaults.
#[derive(Clone, Copy, Debug, PartialEq, Eq, Structural)]
pub struct CandidatePath {
    pub tag: NodeTag,
    /// The kind of plan node the path turns into.
    pub pathtype: NodeTag,
    /// The range-table index of the parent relation.
    pub parent: u32,
    pub pathtarget: u64,
    /// The lateral references the host derives the parameter info from.
    pub param_outer: u64,
    pub flags: u32,
    pub methods: MethodTable,
}

/// A candidate path may be handed to the host: it is tagged as a custom path,
/// turns into a custom scan, and carries the path method table.
pub open spec fn path_well_formed(p: CandidatePath) -> bool {
    &&& p.tag == NodeTag::CustomPath
    &&& p.pathtype == NodeTag::CustomScan
    &&& p.methods == MethodTable::PathMethods
}

/// The recognized operator as the two catalog lookups leave it: a miss in
/// either means there is none.
pub open spec fn resolved_operator(type_oid: u32, op_oid: u32) -> Option<u32> {
    if type_oid == INVALID_OID || op_oid == INVALID_OID {
        None
    } else {
        Some(op_oid)
    }
}

pub fn resolve_operator(type_oid: u32, op_oid: u32) -> (r: Option<u32>)
    ensures
        r == resolved_operator(type_oid, op_oid),
{
    if type_oid == INVALID_OID || op_oid == INVALID_OID {
        None
    } else {
        Some(op_oid)
    }
}

/// The clause is an operator expression of the given operator.
pub open spec fn applies(c: Clause, o: u32) -> bool {
    c.opno == Some(o)
}

/// Some restriction clause applies the recognized operator.
pub open spec fn recognized(clauses: Seq<Clause>, op: Option<u32>) -> bool {
    match op {
        Some(o) => exists|i: int| 0 <= i < clauses.len() && applies(#[trigger] clauses[i], o),
        None => false,
    }
}

pub fn has_recognized_predicate(clauses: &Vec<Clause>, op: Option<u32>) -> (r: bool)
    ensures
        r == recognized(clauses@, op),
{
    match op {
        None => false,
        Some(o) => {
            let mut i: usize = 0;
            while i < clauses.len()
                invariant
                    op == Some(o),
                    i <= clauses@.len(),
                    forall|j: int| 0 <= j < i ==> !applies(#[trigger] clauses@[j], o),
                decreases clauses@.len() - i,
            {
                if clauses[i].opno == Some(o) {
                    assert(applies(clauses@[i as int], o));
                    return true;
                }
                i = i + 1;
            }
            false
        },
    }
}

/// The path proposed for a relation.
pub open spec fn candidate_for(relid: u32, reltarget: u64, lateral_relids: u64) -> CandidatePath {
    CandidatePath {
        tag: NodeTag::CustomPath,
        pathtype: NodeTag::CustomScan,
        parent: relid,
        pathtarget: reltarget,
        param_outer: lateral_relids,
        flags: 0,
        methods: MethodTable::PathMethods,
    }
}

pub open spec fn proposal(rel: RelInfo, op: Option<u32>) -> Option<CandidatePath> {
    if recognized(rel.baserestrictinfo@, op) {
        Some(candidate_for(rel.relid, rel.reltarget, rel.lateral_relids))
    } else {
        None
    }
}

/// Proposes one custom path for the relation when a restriction clause
/// applies the recognized operator, and none otherwise.
pub fn propose_path(rel: &RelInfo, op: Option<u32>) -> (r: Option<CandidatePath>)
    ensures
        r == proposal(*rel, op),
        r matches Some(p) ==> path_well_formed(p) && p.flags == 0 && p.parent == rel.relid,
{
    if has_recognized_predicate(&rel.baserestrictinfo, op) {
        Some(
            CandidatePath {
                tag: NodeTag::CustomPath,
                pathtype: NodeTag::CustomScan,
                parent: rel.relid,
                pathtarget: rel.reltarget,
                param_outer: rel.lateral_relids,
                flags: 0,
                methods: MethodTable::PathMethods,
            },
        )
    } else {
        None
    }
}

} // verus!
