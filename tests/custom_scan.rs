use zdb_custom_scan::hook::{dispatch, previous_step, HookChain, HookStep};
use zdb_custom_scan::node::{
    custom_name, may_invoke, registered, table_for, ExecCallback, MethodTable, NodeTag,
    CUSTOMPATH_SUPPORT_MARK_RESTORE, CUSTOMPATH_SUPPORT_PARALLEL,
};
use zdb_custom_scan::path::{
    has_recognized_predicate, propose_path, resolve_operator, CandidatePath, Clause, RelInfo,
};
use zdb_custom_scan::plan::{extract_actual_clauses, plan_custom_path, ResidualFilter};
use zdb_custom_scan::scan::{Cursor, Phase, ScanState, SHARED_STATE_SIZE};

const SEARCH_OP: u32 = 16_500;
const QUERY_TYPE: u32 = 16_400;
const INT_EQ_OP: u32 = 96;

fn op_clause(opno: u32, expr: u64) -> Clause {
    Clause { opno: Some(opno), pseudoconstant: false, expr }
}

fn relation(clauses: Vec<Clause>) -> RelInfo {
    RelInfo { relid: 3, reltarget: 700, lateral_relids: 800, baserestrictinfo: clauses }
}

fn chain(prev: Option<u64>) -> HookChain {
    let mut c = HookChain::new();
    assert!(c.install(prev));
    c
}

fn sample_plan(flags: u32) -> zdb_custom_scan::plan::CompiledScanPlan {
    let rel = relation(vec![op_clause(SEARCH_OP, 11)]);
    let path = propose_path(&rel, Some(SEARCH_OP)).unwrap();
    let path = CandidatePath { flags, ..path };
    plan_custom_path(&rel, &path, 900, &rel.baserestrictinfo, ResidualFilter::PushedDown)
}

#[test]
fn search_operator_clause_proposes_one_path() {
    // col ==> 'query', with the operator resolved against the query type
    let op = resolve_operator(QUERY_TYPE, SEARCH_OP);
    let rel = relation(vec![op_clause(SEARCH_OP, 11)]);
    let steps = dispatch(&chain(None), &rel, op);
    assert_eq!(steps.len(), 1);
    match steps[0] {
        HookStep::AddPath(p) => {
            assert_eq!(p.tag, NodeTag::CustomPath);
            assert_eq!(p.pathtype, NodeTag::CustomScan);
            assert_eq!(p.parent, 3);
            assert_eq!(p.pathtarget, 700);
            assert_eq!(p.param_outer, 800);
            assert_eq!(p.flags, 0);
            assert_eq!(p.methods, MethodTable::PathMethods);
        }
        HookStep::CallPrevious(_) => panic!("unexpected previous hook call"),
    }
}

#[test]
fn equality_clause_proposes_nothing() {
    // col = 5 only
    let op = resolve_operator(QUERY_TYPE, SEARCH_OP);
    let rel = relation(vec![op_clause(INT_EQ_OP, 12)]);
    let steps = dispatch(&chain(None), &rel, op);
    assert!(steps.is_empty());
}

#[test]
fn previous_hook_runs_once_without_proposal() {
    let rel = relation(vec![op_clause(INT_EQ_OP, 12)]);
    let steps = dispatch(&chain(Some(42)), &rel, Some(SEARCH_OP));
    assert_eq!(steps, vec![HookStep::CallPrevious(42)]);
}

#[test]
fn previous_hook_runs_before_the_proposal() {
    let rel = relation(vec![op_clause(INT_EQ_OP, 12), op_clause(SEARCH_OP, 13)]);
    let c = HookChain { installed: true, prev: Some(42) };
    let steps = dispatch(&c, &rel, Some(SEARCH_OP));
    assert_eq!(steps.len(), 2);
    assert_eq!(steps[0], HookStep::CallPrevious(42));
    assert!(matches!(steps[1], HookStep::AddPath(p) if p.parent == 3 && p.flags == 0));
}

#[test]
fn lookup_miss_proposes_nothing() {
    assert_eq!(resolve_operator(0, SEARCH_OP), None);
    assert_eq!(resolve_operator(QUERY_TYPE, 0), None);
    assert_eq!(resolve_operator(QUERY_TYPE, SEARCH_OP), Some(SEARCH_OP));
    let rel = relation(vec![op_clause(SEARCH_OP, 11)]);
    assert!(dispatch(&chain(None), &rel, None).is_empty());
    assert_eq!(propose_path(&rel, None), None);
}

#[test]
fn empty_restriction_list_proposes_nothing() {
    let rel = relation(Vec::new());
    assert!(!has_recognized_predicate(&rel.baserestrictinfo, Some(SEARCH_OP)));
    assert_eq!(dispatch(&chain(Some(7)), &rel, Some(SEARCH_OP)), vec![HookStep::CallPrevious(7)]);
}

#[test]
fn non_operator_clause_is_not_recognized() {
    let clauses = vec![Clause { opno: None, pseudoconstant: false, expr: 5 }];
    assert!(!has_recognized_predicate(&clauses, Some(SEARCH_OP)));
    let clauses = vec![Clause { opno: None, pseudoconstant: false, expr: 5 }, op_clause(SEARCH_OP, 6)];
    assert!(has_recognized_predicate(&clauses, Some(SEARCH_OP)));
}

#[test]
fn compile_keeps_flags_and_relation() {
    let rel = relation(vec![op_clause(SEARCH_OP, 11)]);
    let path = CandidatePath { flags: CUSTOMPATH_SUPPORT_MARK_RESTORE, ..propose_path(&rel, Some(SEARCH_OP)).unwrap() };
    let plan = plan_custom_path(&rel, &path, 900, &rel.baserestrictinfo, ResidualFilter::PushedDown);
    assert_eq!(plan.tag, NodeTag::CustomScan);
    assert_eq!(plan.flags, CUSTOMPATH_SUPPORT_MARK_RESTORE);
    assert_eq!(plan.scanrelid, path.parent);
    assert_eq!(plan.targetlist, 900);
    assert!(plan.qual.is_empty());
    assert_eq!(plan.methods, MethodTable::ScanMethods);
}

#[test]
fn recheck_keeps_clauses_that_reference_columns() {
    let clauses = vec![
        op_clause(SEARCH_OP, 11),
        Clause { opno: None, pseudoconstant: true, expr: 12 },
        op_clause(INT_EQ_OP, 13),
    ];
    assert_eq!(extract_actual_clauses(&clauses), vec![11, 13]);
    let rel = relation(clauses);
    let path = propose_path(&rel, Some(SEARCH_OP)).unwrap();
    let plan = plan_custom_path(&rel, &path, 900, &rel.baserestrictinfo, ResidualFilter::Recheck);
    assert_eq!(plan.qual, vec![11, 13]);
    assert!(extract_actual_clauses(&Vec::new()).is_empty());
}

#[test]
fn create_sets_tag_flags_and_methods() {
    let plan = sample_plan(CUSTOMPATH_SUPPORT_PARALLEL);
    let s = ScanState::create(&plan);
    assert_eq!(s.tag, NodeTag::CustomScanState);
    assert_eq!(s.flags, CUSTOMPATH_SUPPORT_PARALLEL);
    assert_eq!(s.methods, MethodTable::ExecMethods);
    assert_eq!(s.phase, Phase::Created);
    assert_eq!(s.cursor, Cursor { position: 0, exhausted: false });
    assert_eq!(s.marked, None);
}

#[test]
fn create_then_end_releases_everything() {
    let mut s = ScanState::create(&sample_plan(0));
    s.end();
    assert_eq!(s.phase, Phase::Ended);
    assert_eq!(s.cursor, Cursor { position: 0, exhausted: true });
    assert_eq!(s.marked, None);
    let once = s;
    s.end();
    assert_eq!(s, once);
}

#[test]
fn rescan_keeps_tag_and_methods() {
    let mut s = ScanState::create(&sample_plan(CUSTOMPATH_SUPPORT_MARK_RESTORE));
    s.begin(0);
    assert_eq!(s.phase, Phase::Began);
    s.next();
    s.mark_pos();
    for _ in 0..5 {
        s.rescan();
        assert_eq!(s.tag, NodeTag::CustomScanState);
        assert_eq!(s.methods, MethodTable::ExecMethods);
        assert_eq!(s.flags, CUSTOMPATH_SUPPORT_MARK_RESTORE);
        assert_eq!(s.phase, Phase::Running);
        assert_eq!(s.cursor, Cursor { position: 0, exhausted: false });
        assert_eq!(s.marked, None);
    }
}

#[test]
fn end_of_data_is_stable() {
    let mut s = ScanState::create(&sample_plan(0));
    s.begin(0);
    assert_eq!(s.next(), None);
    let after_first = s;
    assert_eq!(s.phase, Phase::Running);
    assert!(s.cursor.exhausted);
    for _ in 0..4 {
        assert_eq!(s.next(), None);
        assert_eq!(s, after_first);
    }
}

#[test]
fn mark_and_restore_rewind_the_cursor() {
    let mut s = ScanState::create(&sample_plan(CUSTOMPATH_SUPPORT_MARK_RESTORE));
    s.begin(0);
    s.restr_pos();
    assert_eq!(s.cursor, Cursor { position: 0, exhausted: false });
    s.mark_pos();
    assert_eq!(s.marked, Some(Cursor { position: 0, exhausted: false }));
    s.next();
    assert!(s.cursor.exhausted);
    s.restr_pos();
    assert_eq!(s.cursor, Cursor { position: 0, exhausted: false });
}

#[test]
fn shutdown_then_end() {
    let mut s = ScanState::create(&sample_plan(0));
    s.begin(0);
    s.next();
    s.shutdown();
    assert_eq!(s.phase, Phase::ShuttingDown);
    s.end();
    assert_eq!(s.phase, Phase::Ended);
    s.shutdown();
    s.begin(0);
    assert_eq!(s.phase, Phase::Ended);
    assert_eq!(s.next(), None);
    assert_eq!(s.phase, Phase::Ended);
}

#[test]
fn zero_size_shared_region_is_accepted() {
    let mut s = ScanState::create(&sample_plan(CUSTOMPATH_SUPPORT_PARALLEL));
    let size = s.estimate_dsm();
    assert_eq!(size, 0);
    assert_eq!(size, SHARED_STATE_SIZE);
    let mut region: Vec<u8> = vec![0u8; size];
    s.initialize_dsm(&mut region);
    assert!(region.is_empty());
    s.reinitialize_dsm(&mut region);
    assert!(region.is_empty());
    let before = s;
    s.initialize_worker(&region);
    s.initialize_worker(&region);
    assert_eq!(s, before);
    assert!(s.explain().is_empty());
}

#[test]
fn callbacks_follow_table_and_flags() {
    assert!(registered(ExecCallback::Begin));
    assert!(registered(ExecCallback::Explain));
    assert!(!registered(ExecCallback::MarkPos));
    assert!(!registered(ExecCallback::Shutdown));
    assert!(may_invoke(0, ExecCallback::ReScan));
    assert!(!may_invoke(CUSTOMPATH_SUPPORT_MARK_RESTORE, ExecCallback::MarkPos));
    assert!(!may_invoke(CUSTOMPATH_SUPPORT_PARALLEL, ExecCallback::EstimateDsm));
    assert!(!may_invoke(0, ExecCallback::InitializeWorker));
}

#[test]
fn tables_and_names() {
    assert_eq!(table_for(NodeTag::CustomPath), MethodTable::PathMethods);
    assert_eq!(table_for(NodeTag::CustomScan), MethodTable::ScanMethods);
    assert_eq!(table_for(NodeTag::CustomScanState), MethodTable::ExecMethods);
    assert_eq!(custom_name(MethodTable::PathMethods), "ZomboDB Custom Path");
    assert_eq!(custom_name(MethodTable::ScanMethods), "ZomboDB Custom Scan");
    assert_eq!(custom_name(MethodTable::ExecMethods), "ZomboDB Exec");
}

#[test]
fn previous_hook_is_captured_once() {
    let mut c = HookChain::new();
    assert!(!c.installed);
    assert_eq!(c.prev, None);
    assert!(c.install(Some(5)));
    assert_eq!(c, HookChain { installed: true, prev: Some(5) });
    assert!(!c.install(Some(6)));
    assert_eq!(c, HookChain { installed: true, prev: Some(5) });
    assert!(!c.install(None));
    assert_eq!(c.prev, Some(5));
}

#[test]
fn previous_step_is_the_chained_call() {
    assert_eq!(previous_step(&chain(Some(42))), Some(HookStep::CallPrevious(42)));
    assert_eq!(previous_step(&chain(None)), None);
    assert_eq!(previous_step(&HookChain::new()), None);
    let rel = relation(vec![op_clause(SEARCH_OP, 11)]);
    let steps = dispatch(&chain(Some(42)), &rel, Some(SEARCH_OP));
    assert_eq!(Some(steps[0]), previous_step(&chain(Some(42))));
}

#[test]
fn new_state_is_zero_but_tag_flags_methods() {
    let s = ScanState::create(&sample_plan(CUSTOMPATH_SUPPORT_MARK_RESTORE));
    let expected = ScanState {
        tag: NodeTag::CustomScanState,
        flags: CUSTOMPATH_SUPPORT_MARK_RESTORE,
        methods: MethodTable::ExecMethods,
        phase: Phase::Created,
        cursor: Cursor { position: 0, exhausted: false },
        marked: None,
    };
    assert_eq!(s, expected);
}
