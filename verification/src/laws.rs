//! The engine's run-level guarantees, proved over the transition relation
//! [`spec_step`]: output order, the two-tier failure policy, variable
//! assignment feedback, and the at-most-one-acquisition discipline of the
//! connection lease.
use vstd::prelude::*;
use crate::binder::{spec_bind, spec_resolve, ExtractOutcomeView};
use crate::engine::{
    event_fits,
    spec_step,
    stmt_query,
    stmt_variable,
    wf,
    ActionView,
    EngineView,
    EventView,
    PhaseView,
};
use crate::error::{binding_error_chain, enriched_error};
use crate::items::{execute_error_headline, DbItemView, DbResultUnitView};
use crate::plan::{ParsedStatementView, StmtParamView};
use crate::request::{spec_lookup, RequestView, VarValue};

verus! {

/// The items a run emits from state `s` when the driver feeds the events
/// `evs`, in order.
pub open spec fn spec_run(s: EngineView, req: RequestView, evs: Seq<EventView>) -> Seq<DbItemView>
    decreases evs.len(),
{
    if evs.len() == 0 {
        Seq::empty()
    } else {
        let st = spec_step(s, req, evs[0]);
        st.items + spec_run(st.engine, st.req, evs.drop_first())
    }
}

/// The same run with every item tagged by the index of the statement that
/// produced it.
pub open spec fn spec_run_tagged(s: EngineView, req: RequestView, evs: Seq<EventView>) -> Seq<
    (int, DbItemView),
>
    decreases evs.len(),
{
    if evs.len() == 0 {
        Seq::empty()
    } else {
        let st = spec_step(s, req, evs[0]);
        Seq::new(st.items.len(), |k: int| (s.idx, st.items[k])) + spec_run_tagged(
            st.engine,
            st.req,
            evs.drop_first(),
        )
    }
}

/// How many times a run asks the driver to acquire a connection.
pub open spec fn acquire_count(s: EngineView, req: RequestView, evs: Seq<EventView>) -> nat
    decreases evs.len(),
{
    if evs.len() == 0 {
        0
    } else {
        let st = spec_step(s, req, evs[0]);
        (if st.action is AcquireConnection {
            1nat
        } else {
            0nat
        }) + acquire_count(st.engine, st.req, evs.drop_first())
    }
}

/// Every step keeps the engine well formed, never touches the plan, never
/// moves the statement index backwards, and never gives the lease up.
pub proof fn lemma_step_preserves_wf(s: EngineView, req: RequestView, ev: EventView)
    requires
        wf(s),
    ensures
        wf(spec_step(s, req, ev).engine),
        spec_step(s, req, ev).engine.plan == s.plan,
        spec_step(s, req, ev).engine.idx >= s.idx,
        s.lease ==> spec_step(s, req, ev).engine.lease,
{
}

/// Every item a step emits belongs to the statement the engine stood at.
/// Together with the index never moving backwards this is the order law:
/// in any run, all items of statement `i` precede all items of any later
/// statement.
pub proof fn lemma_tags_lower_bound(s: EngineView, req: RequestView, evs: Seq<EventView>)
    requires
        wf(s),
    ensures
        forall|k: int|
            0 <= k < spec_run_tagged(s, req, evs).len() ==> (#[trigger] spec_run_tagged(
                s,
                req,
                evs,
            )[k]).0 >= s.idx,
    decreases evs.len(),
{
    if evs.len() == 0 {
    } else {
        let st = spec_step(s, req, evs[0]);
        lemma_step_preserves_wf(s, req, evs[0]);
        lemma_tags_lower_bound(st.engine, st.req, evs.drop_first());
        let head = Seq::new(st.items.len(), |k: int| (s.idx, st.items[k]));
        let rest = spec_run_tagged(st.engine, st.req, evs.drop_first());
        let whole = spec_run_tagged(s, req, evs);
        assert(whole == head + rest);
        assert forall|k: int| 0 <= k < whole.len() implies (#[trigger] whole[k]).0 >= s.idx by {
            if k < head.len() {
                assert(whole[k] == head[k]);
            } else {
                assert(whole[k] == rest[k - head.len()]);
                assert(rest[k - head.len()].0 >= st.engine.idx);
            }
        }
    }
}

/// Output order is preserved: in any run the statement tags of the emitted
/// items are nondecreasing, so all items from statement `i` precede all
/// items from statement `i + 1`.
pub proof fn lemma_output_order(s: EngineView, req: RequestView, evs: Seq<EventView>)
    requires
        wf(s),
    ensures
        forall|a: int, b: int|
            0 <= a <= b < spec_run_tagged(s, req, evs).len() ==> (#[trigger] spec_run_tagged(
                s,
                req,
                evs,
            )[a]).0 <= (#[trigger] spec_run_tagged(s, req, evs)[b]).0,
    decreases evs.len(),
{
    if evs.len() == 0 {
    } else {
        let st = spec_step(s, req, evs[0]);
        lemma_step_preserves_wf(s, req, evs[0]);
        lemma_output_order(st.engine, st.req, evs.drop_first());
        lemma_tags_lower_bound(st.engine, st.req, evs.drop_first());
        let whole = spec_run_tagged(s, req, evs);
        let head = Seq::new(st.items.len(), |k: int| (s.idx, st.items[k]));
        let rest = spec_run_tagged(st.engine, st.req, evs.drop_first());
        assert forall|a: int, b: int| 0 <= a <= b < whole.len() implies (#[trigger] whole[a]).0
            <= (#[trigger] whole[b]).0 by {
            if a < head.len() {
                assert(whole[a].0 == s.idx);
            } else {
                assert(whole[a] == rest[a - head.len()]);
            }
            if b < head.len() {
                assert(whole[b].0 == s.idx);
            } else {
                assert(whole[b] == rest[b - head.len()]);
                assert(rest[b - head.len()].0 >= st.engine.idx);
            }
        }
    }
}

/// An execution-time failure is recoverable: when the backend reports an
/// error while a parameterized query streams its results, the step emits
/// exactly one error item, enriched with the statement's SQL text, and the
/// engine stands ready at the next statement rather than ending the run.
pub proof fn lemma_execution_failure_recoverable(
    s: EngineView,
    req: RequestView,
    sql: Seq<char>,
    message: Seq<char>,
)
    requires
        wf(s),
        s.phase == (PhaseView::Streaming { sql }),
    ensures
        ({
            let st = spec_step(s, req, EventView::QueryUnit(DbResultUnitView::Failure(message)));
            &&& st.items =~= seq![
                DbItemView::Error(enriched_error(execute_error_headline(), sql, message)),
            ]
            &&& st.engine.idx == s.idx + 1
            &&& st.engine.phase is Ready
            &&& st.action is Proceed
        }),
{
}

/// A binding failure is fatal: the step emits exactly one error item,
/// citing the failing parameter, and the run ends there.
pub proof fn lemma_binding_failure_fatal(
    s: EngineView,
    req: RequestView,
    assign: bool,
    ext: Seq<ExtractOutcomeView>,
    index1: int,
    cause: Seq<char>,
)
    requires
        wf(s),
        s.phase == (PhaseView::AwaitBind { assign }),
        spec_bind(stmt_query(s.plan[s.idx]).params, req, ext, 0, 0) == Err::<
            Seq<crate::binder::ArgumentView>,
            (int, Seq<char>),
        >((index1, cause)),
        index1 >= 0,
    ensures
        ({
            let st = spec_step(s, req, EventView::ParamsExtracted(ext));
            &&& st.items =~= seq![DbItemView::Error(binding_error_chain(index1 as nat, cause))]
            &&& st.engine.phase is Done
            &&& st.action is Finished
        }),
{
}

/// Nothing follows the end of a run: once the engine is done, no event
/// makes it emit another item.
pub proof fn lemma_done_emits_nothing(s: EngineView, req: RequestView, evs: Seq<EventView>)
    requires
        s.phase is Done,
    ensures
        spec_run(s, req, evs) =~= Seq::empty(),
    decreases evs.len(),
{
    if evs.len() == 0 {
    } else {
        lemma_done_emits_nothing(s, req, evs.drop_first());
    }
}

/// A variable assignment routes its inner query's single optional value
/// into the named variable without surfacing any item: a present value
/// sets the variable in its scope, an absent one removes it, and a later
/// parameter reference to the same name resolves to exactly that state.
pub proof fn lemma_assignment_updates_variable(
    s: EngineView,
    req: RequestView,
    name: Seq<char>,
    value: Option<Seq<char>>,
)
    requires
        wf(s),
        s.phase is AwaitRow,
        stmt_variable(s.plan[s.idx]) == StmtParamView::Get(name) || stmt_variable(s.plan[s.idx])
            == StmtParamView::Post(name),
    ensures
        ({
            let st = spec_step(s, req, EventView::RowFetched(value));
            let target_get = stmt_variable(s.plan[s.idx]) == StmtParamView::Get(name);
            let scope = if target_get {
                st.req.get
            } else {
                st.req.post
            };
            &&& st.items =~= Seq::<DbItemView>::empty()
            &&& st.engine.idx == s.idx + 1
            &&& st.engine.phase is Ready
            &&& (match value {
                Some(v) => scope == (if target_get {
                    req.get
                } else {
                    req.post
                }).insert(name, VarValue::Single(v)) && spec_lookup(scope, name) == Some(v),
                None => scope == (if target_get {
                    req.get
                } else {
                    req.post
                }).remove(name) && spec_lookup(scope, name) is None,
            })
            &&& (if target_get {
                st.req.post == req.post
            } else {
                st.req.get == req.get
            })
            &&& spec_resolve(
                st.req,
                if target_get {
                    StmtParamView::Get(name)
                } else {
                    StmtParamView::Post(name)
                },
            ) == Some(value)
        }),
{
}

/// A plan whose statements are all parse-time constants.
pub open spec fn all_static(plan: Seq<ParsedStatementView>) -> bool {
    forall|i: int| 0 <= i < plan.len() ==> (#[trigger] plan[i]) is StaticSimpleSelect
}

/// A static constant never touches the connection: over a plan of static
/// constants only, a run performs no connection acquisition at all,
/// whatever events the driver feeds it.
pub proof fn lemma_static_plan_never_acquires(
    s: EngineView,
    req: RequestView,
    evs: Seq<EventView>,
)
    requires
        wf(s),
        all_static(s.plan),
        s.phase is Ready || s.phase is Done,
    ensures
        acquire_count(s, req, evs) == 0,
    decreases evs.len(),
{
    if evs.len() == 0 {
    } else {
        let st = spec_step(s, req, evs[0]);
        lemma_step_preserves_wf(s, req, evs[0]);
        if s.phase is Ready && s.idx < s.plan.len() {
            assert(s.plan[s.idx] is StaticSimpleSelect);
        }
        lemma_static_plan_never_acquires(st.engine, st.req, evs.drop_first());
    }
}

/// How many acquisitions a state may still ask for: none once the lease is
/// held, none while one is already pending, none after the run is over.
pub open spec fn acquire_budget(s: EngineView) -> nat {
    if s.lease {
        0
    } else {
        match s.phase {
            PhaseView::AwaitConnImport => 0,
            PhaseView::AwaitConnQuery { .. } => 0,
            PhaseView::AwaitConnAssign { .. } => 0,
            PhaseView::Done => 0,
            _ => 1,
        }
    }
}

/// One step asks for at most what the budget allows, and leaves no more
/// budget than it had.
pub proof fn lemma_step_acquire_budget(s: EngineView, req: RequestView, ev: EventView)
    requires
        wf(s),
    ensures
        ({
            let st = spec_step(s, req, ev);
            (if st.action is AcquireConnection {
                1nat
            } else {
                0nat
            }) + acquire_budget(st.engine) <= acquire_budget(s)
        }),
{
}

/// The connection lease is acquired at most once per run: however many
/// parameterized queries, assignments and imports a plan holds, and
/// whatever events the driver feeds, a run asks for at most one
/// connection acquisition.
pub proof fn lemma_at_most_one_acquisition(s: EngineView, req: RequestView, evs: Seq<EventView>)
    requires
        wf(s),
    ensures
        acquire_count(s, req, evs) <= acquire_budget(s),
        acquire_count(s, req, evs) <= 1,
    decreases evs.len(),
{
    if evs.len() == 0 {
    } else {
        let st = spec_step(s, req, evs[0]);
        lemma_step_preserves_wf(s, req, evs[0]);
        lemma_step_acquire_budget(s, req, evs[0]);
        lemma_at_most_one_acquisition(st.engine, st.req, evs.drop_first());
    }
}

} // verus!
