//! The chain of path-proposal hooks: the previously installed hook is kept
//! at installation and always runs first, before this provider's own
//! proposal.
use vstd::prelude::*;
use crate::path::{CandidatePath, RelInfo, path_well_formed, propose_path, proposal, candidate_for, recognized};

verus! {

/// The hook found installed when this provider installed its own: a cell
/// written once at load time and only read afterwards.
#[derive(Clone, Copy, Debug, PartialEq, Eq, Structural)]
pub struct HookChain {
    /// Whether this provider's hook has been installed.
    pub installed: bool,
    /// The host's handle for the previous hook, if one was installed.
    pub prev: Option<u64>,
}

impl HookChain {
    /// The chain before installation: nothing captured.
    pub fn new() -> (r: HookChain)
        ensures
            !r.installed,
            r.prev is None,
    {
        HookChain { installed: false, prev: None }
    }

    /// Captures the currently installed hook, once; the caller then installs
    /// this provider's hook in its place.  A second installation is refused
    /// and changes nothing.
    pub fn install(&mut self, current: Option<u64>) -> (r: bool)
        ensures
            r == !old(self).installed,
            r ==> *final(self) == (HookChain { installed: true, prev: current }),
            !r ==> *final(self) == *old(self),
    {
        if self.installed {
            false
        } else {
            self.installed = true;
            self.prev = current;
            true
        }
    }
}

/// What the host is asked to do, in order, for one relation.
#[derive(Clone, Copy, Debug, PartialEq, Eq, Structural)]
pub enum HookStep {
    /// Call the previous hook with the arguments this hook received.
    CallPrevious(u64),
    /// Register the path in the relation's path list.
    AddPath(CandidatePath),
}

/// The chained call to the previous hook, if one was captured.
pub open spec fn previous_step_spec(chain: HookChain) -> Option<HookStep> {
    match chain.prev {
        Some(h) => Some(HookStep::CallPrevious(h)),
        None => None,
    }
}

/// The first thing to do for a relation, before reading anything of it:
/// call the previous hook, if one was captured.
pub fn previous_step(chain: &HookChain) -> (r: Option<HookStep>)
    ensures
        r == previous_step_spec(*chain),
        r matches Some(st) ==> forall|rel: RelInfo, op: Option<u32>| #[trigger] dispatch_spec(*chain, rel, op)[0] == st,
{
    match chain.prev {
        Some(h) => Some(HookStep::CallPrevious(h)),
        None => None,
    }
}

pub open spec fn steps_of(prev: Option<u64>, proposed: Option<CandidatePath>) -> Seq<HookStep> {
    let chained = match prev {
        Some(h) => seq![HookStep::CallPrevious(h)],
        None => Seq::empty(),
    };
    match proposed {
        Some(p) => chained.push(HookStep::AddPath(p)),
        None => chained,
    }
}

/// The steps taken for a relation: the previous hook first, if any, then the
/// proposed path, if any.
pub open spec fn dispatch_spec(chain: HookChain, rel: RelInfo, op: Option<u32>) -> Seq<HookStep> {
    steps_of(chain.prev, proposal(rel, op))
}

/// The number of previous-hook calls among the steps.
pub open spec fn calls_to_previous(s: Seq<HookStep>) -> nat
    decreases s.len(),
{
    if s.len() == 0 {
        0
    } else {
        calls_to_previous(s.drop_last()) + if s.last() is CallPrevious { 1nat } else { 0nat }
    }
}

/// The number of paths registered among the steps.
pub open spec fn paths_added(s: Seq<HookStep>) -> nat
    decreases s.len(),
{
    if s.len() == 0 {
        0
    } else {
        paths_added(s.drop_last()) + if s.last() is AddPath { 1nat } else { 0nat }
    }
}

/// The hook for one base relation, given the recognized operator as the
/// catalog resolved it (`None` on a lookup miss).
pub fn dispatch(chain: &HookChain, rel: &RelInfo, op: Option<u32>) -> (r: Vec<HookStep>)
    ensures
        r@ == dispatch_spec(*chain, *rel, op),
{
    let mut steps: Vec<HookStep> = Vec::new();
    match chain.prev {
        Some(h) => steps.push(HookStep::CallPrevious(h)),
        None => {},
    }
    match propose_path(rel, op) {
        Some(p) => steps.push(HookStep::AddPath(p)),
        None => {},
    }
    proof {
        assert(steps@ =~= steps_of(chain.prev, proposal(*rel, op)));
    }
    steps
}

/// With no restriction clause applying the recognized operator, no path is
/// registered, and the previous hook, if any, is called exactly once, before
/// anything else.
pub proof fn law_no_recognized_predicate(chain: HookChain, rel: RelInfo, op: Option<u32>)
    requires
        !recognized(rel.baserestrictinfo@, op),
    ensures
        paths_added(dispatch_spec(chain, rel, op)) == 0,
        calls_to_previous(dispatch_spec(chain, rel, op)) == if chain.prev is Some { 1nat } else { 0nat },
        chain.prev matches Some(h) ==> dispatch_spec(chain, rel, op)[0] == HookStep::CallPrevious(h),
{
    reveal_with_fuel(paths_added, 3);
    reveal_with_fuel(calls_to_previous, 3);
    let s = dispatch_spec(chain, rel, op);
    match chain.prev {
        Some(h) => {
            assert(s.drop_last() =~= Seq::<HookStep>::empty());
        },
        None => {},
    }
}

/// With a restriction clause applying the recognized operator, exactly one
/// path is registered, after the previous hook's call; it is well formed,
/// belongs to the relation and advertises no optional capability.
pub proof fn law_recognized_predicate(chain: HookChain, rel: RelInfo, op: Option<u32>)
    requires
        recognized(rel.baserestrictinfo@, op),
    ensures
        paths_added(dispatch_spec(chain, rel, op)) == 1,
        calls_to_previous(dispatch_spec(chain, rel, op)) == if chain.prev is Some { 1nat } else { 0nat },
        dispatch_spec(chain, rel, op).last() == HookStep::AddPath(candidate_for(rel.relid, rel.reltarget, rel.lateral_relids)),
        path_well_formed(candidate_for(rel.relid, rel.reltarget, rel.lateral_relids)),
        candidate_for(rel.relid, rel.reltarget, rel.lateral_relids).flags == 0,
        candidate_for(rel.relid, rel.reltarget, rel.lateral_relids).parent == rel.relid,
{
    reveal_with_fuel(paths_added, 3);
    reveal_with_fuel(calls_to_previous, 3);
    let s = dispatch_spec(chain, rel, op);
    assert(s.drop_last() =~= steps_of(chain.prev, None));
    match chain.prev {
        Some(h) => {
            assert(s.drop_last().drop_last() =~= Seq::<HookStep>::empty());
        },
        None => {},
    }
}

} // verus!
