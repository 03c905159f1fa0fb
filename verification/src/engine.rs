//! The execution orchestrator, as a pull-based state machine.
//!
//! The engine holds the statement plan, the index of the current statement,
//! a phase describing what it is waiting for, and whether the run's single
//! connection lease is held. It performs no I/O itself: [`Engine::step`]
//! takes the outcome of the previous outside operation as an [`Event`],
//! emits the output items that become available, and answers with the
//! [`Action`] the driver must perform next. The whole transition relation
//! is the spec function [`spec_step`]; the executable step is proved equal
//! to it.
//!
//! The two-tier failure policy lives here: a failure the backend reports
//! while streaming a statement's results is reported inline and the run
//! continues with the next statement, while every setup-level failure
//! (binding, import, scope resolution, connection acquisition) ends the
//! run with one final error item.
use vstd::prelude::*;
use crate::binder::{
    bind_parameters,
    collect_externals,
    externals,
    spec_bind,
    ExtractOutcome,
    ExtractOutcomeView,
    StatementWithParams,
    StatementWithParamsView,
};
use crate::error::{
    acquisition_error,
    acquisition_error_chain,
    binding_error,
    binding_error_chain,
    clone_anyhow_err,
    parse_error_headline,
    ErrorChain,
};
use crate::items::{mapped_item, parse_single_sql_result, DbItem, DbItemView, DbResultUnit, DbResultUnitView};
use crate::plan::{CsvImport, CsvImportView, ParsedStatement, ParsedStatementView, StmtParam, StmtParamView, StmtWithParamsView};
use crate::request::{
    apply_variable,
    scope_error_chain,
    vars_and_name,
    RequestInfo,
    RequestView,
    TargetScope,
    VarValue,
};

verus! {

/// What the engine is waiting for.
pub enum Phase {
    /// Ready to begin the current statement (or to finish the run).
    Ready,
    /// Waiting for the external collaborator's parameter values for the
    /// current statement's query (`assign` tells an assignment's inner
    /// query apart from a plain parameterized query).
    AwaitBind { assign: bool },
    /// Waiting for a connection so a bulk import can run.
    AwaitConnImport,
    /// Waiting for the import collaborator to finish.
    AwaitImport,
    /// Waiting for a connection so a bound query can stream its results.
    AwaitConnQuery { query: StatementWithParams },
    /// Streaming the backend's result units for the current statement.
    Streaming { sql: String },
    /// Waiting for a connection so an assignment's inner query can run.
    AwaitConnAssign { query: StatementWithParams },
    /// Waiting for the single optional row of an assignment's inner query.
    AwaitRow,
    /// The run is over; nothing more is emitted.
    Done,
}

/// The mathematical value of a [`Phase`].
pub ghost enum PhaseView {
    Ready,
    AwaitBind { assign: bool },
    AwaitConnImport,
    AwaitImport,
    AwaitConnQuery { query: StatementWithParamsView },
    Streaming { sql: Seq<char> },
    AwaitConnAssign { query: StatementWithParamsView },
    AwaitRow,
    Done,
}

impl View for Phase {
    type V = PhaseView;

    open spec fn view(&self) -> PhaseView {
        match self {
            Phase::Ready => PhaseView::Ready,
            Phase::AwaitBind { assign } => PhaseView::AwaitBind { assign: *assign },
            Phase::AwaitConnImport => PhaseView::AwaitConnImport,
            Phase::AwaitImport => PhaseView::AwaitImport,
            Phase::AwaitConnQuery { query } => PhaseView::AwaitConnQuery { query: query@ },
            Phase::Streaming { sql } => PhaseView::Streaming { sql: sql@ },
            Phase::AwaitConnAssign { query } => PhaseView::AwaitConnAssign { query: query@ },
            Phase::AwaitRow => PhaseView::AwaitRow,
            Phase::Done => PhaseView::Done,
        }
    }
}

/// The outside operation the driver must perform next.
pub enum Action {
    /// Call the engine again with [`Event::Tick`]; no outside work is due.
    Proceed,
    /// The run is over; drop the connection lease, if any.
    Finished,
    /// Acquire a pooled connection and report the outcome.
    AcquireConnection,
    /// Run the bulk-import collaborator with the held connection.
    RunImport(CsvImport),
    /// Ask the external collaborator for each listed parameter's value.
    ExtractParams(Vec<StmtParam>),
    /// Start the bound query as a multi-result cursor and feed back the
    /// first result unit.
    ExecuteQuery(StatementWithParams),
    /// Feed back the next result unit of the running query.
    FetchNextUnit,
    /// Run the bound query and feed back its first row's first column, if
    /// any row is returned.
    FetchOptionalRow(StatementWithParams),
}

/// The mathematical value of an [`Action`].
pub ghost enum ActionView {
    Proceed,
    Finished,
    AcquireConnection,
    RunImport(CsvImportView),
    ExtractParams(Seq<StmtParamView>),
    ExecuteQuery(StatementWithParamsView),
    FetchNextUnit,
    FetchOptionalRow(StatementWithParamsView),
}

impl View for Action {
    type V = ActionView;

    open spec fn view(&self) -> ActionView {
        match self {
            Action::Proceed => ActionView::Proceed,
            Action::Finished => ActionView::Finished,
            Action::AcquireConnection => ActionView::AcquireConnection,
            Action::RunImport(c) => ActionView::RunImport(c@),
            Action::ExtractParams(ps) => ActionView::ExtractParams(ps.deep_view()),
            Action::ExecuteQuery(q) => ActionView::ExecuteQuery(q@),
            Action::FetchNextUnit => ActionView::FetchNextUnit,
            Action::FetchOptionalRow(q) => ActionView::FetchOptionalRow(q@),
        }
    }
}

/// The outcome of the outside operation the driver was asked to perform.
pub enum Event {
    /// Nothing was due.
    Tick,
    /// A pooled connection was acquired; it is now held for the run.
    Acquired,
    /// No connection could be acquired: the pool's total capacity, the
    /// backend kind, and the pool's native message.
    AcquireFailed { pool_size: u64, backend_kind: String, message: String },
    /// The bulk import finished.
    ImportDone,
    /// The bulk import failed with this message.
    ImportFailed { message: String },
    /// The external collaborator's outcome for each requested parameter,
    /// in request order.
    ParamsExtracted(Vec<ExtractOutcome>),
    /// One result unit of the running query.
    QueryUnit(DbResultUnit),
    /// The running query has no further result units.
    QueryEnd,
    /// The assignment's inner query returned this first-row, first-column
    /// value (`None`: no row).
    RowFetched(Option<String>),
    /// The assignment's inner query failed with this message.
    RowFetchFailed { message: String },
}

/// The mathematical value of an [`Event`].
pub ghost enum EventView {
    Tick,
    Acquired,
    AcquireFailed { pool_size: nat, backend_kind: Seq<char>, message: Seq<char> },
    ImportDone,
    ImportFailed { message: Seq<char> },
    ParamsExtracted(Seq<ExtractOutcomeView>),
    QueryUnit(DbResultUnitView),
    QueryEnd,
    RowFetched(Option<Seq<char>>),
    RowFetchFailed { message: Seq<char> },
}

impl View for Event {
    type V = EventView;

    open spec fn view(&self) -> EventView {
        match self {
            Event::Tick => EventView::Tick,
            Event::Acquired => EventView::Acquired,
            Event::AcquireFailed { pool_size, backend_kind, message } => EventView::AcquireFailed {
                pool_size: *pool_size as nat,
                backend_kind: backend_kind@,
                message: message@,
            },
            Event::ImportDone => EventView::ImportDone,
            Event::ImportFailed { message } => EventView::ImportFailed { message: message@ },
            Event::ParamsExtracted(ext) => EventView::ParamsExtracted(ext.deep_view()),
            Event::QueryUnit(u) => EventView::QueryUnit(u@),
            Event::QueryEnd => EventView::QueryEnd,
            Event::RowFetched(v) => EventView::RowFetched(
                match v {
                    Some(s) => Some(s@),
                    None => None,
                },
            ),
            Event::RowFetchFailed { message } => EventView::RowFetchFailed { message: message@ },
        }
    }
}

/// The mathematical state of an [`Engine`].
pub ghost struct EngineView {
    pub plan: Seq<ParsedStatementView>,
    pub idx: int,
    pub phase: PhaseView,
    pub lease: bool,
}

/// The inner query of the statement a query phase concerns.
pub open spec fn stmt_query(st: ParsedStatementView) -> StmtWithParamsView {
    match st {
        ParsedStatementView::StmtWithParams(q) => q,
        ParsedStatementView::SetVariable { value, .. } => value,
        _ => arbitrary(),
    }
}

/// The assignment target of a `SetVariable` statement.
pub open spec fn stmt_variable(st: ParsedStatementView) -> StmtParamView {
    match st {
        ParsedStatementView::SetVariable { variable, .. } => variable,
        _ => arbitrary(),
    }
}

/// The engine's structural invariant: the statement index stays within the
/// plan, each waiting phase stands at a statement of the matching kind,
/// the lease is never held while an acquisition is pending, and every
/// phase that runs backend work holds the lease.
pub open spec fn wf(s: EngineView) -> bool {
    &&& 0 <= s.idx <= s.plan.len()
    &&& match s.phase {
        PhaseView::Ready => true,
        PhaseView::Done => true,
        PhaseView::AwaitBind { assign } => s.idx < s.plan.len() && (if assign {
            s.plan[s.idx] is SetVariable
        } else {
            s.plan[s.idx] is StmtWithParams
        }),
        PhaseView::AwaitConnImport => s.idx < s.plan.len() && s.plan[s.idx] is CsvImport
            && !s.lease,
        PhaseView::AwaitImport => s.idx < s.plan.len() && s.plan[s.idx] is CsvImport && s.lease,
        PhaseView::AwaitConnQuery { .. } => s.idx < s.plan.len() && s.plan[s.idx] is StmtWithParams
            && !s.lease,
        PhaseView::Streaming { .. } => s.idx < s.plan.len() && s.plan[s.idx] is StmtWithParams
            && s.lease,
        PhaseView::AwaitConnAssign { .. } => s.idx < s.plan.len() && s.plan[s.idx] is SetVariable
            && !s.lease,
        PhaseView::AwaitRow => s.idx < s.plan.len() && s.plan[s.idx] is SetVariable && s.lease,
    }
}

/// Which events answer which phase.
pub open spec fn event_fits(s: EngineView, ev: EventView) -> bool {
    match s.phase {
        PhaseView::Ready => ev is Tick,
        PhaseView::AwaitBind { .. } => ev matches EventView::ParamsExtracted(ext) && ext.len()
            == externals(stmt_query(s.plan[s.idx]).params).len(),
        PhaseView::AwaitConnImport => ev is Acquired || ev is AcquireFailed,
        PhaseView::AwaitImport => ev is ImportDone || ev is ImportFailed,
        PhaseView::AwaitConnQuery { .. } => ev is Acquired || ev is AcquireFailed,
        PhaseView::Streaming { .. } => ev is QueryUnit || ev is QueryEnd,
        PhaseView::AwaitConnAssign { .. } => ev is Acquired || ev is AcquireFailed,
        PhaseView::AwaitRow => ev is RowFetched || ev is RowFetchFailed,
        PhaseView::Done => false,
    }
}

/// The full outcome of one step: the engine and request context after it,
/// the output items it emits, and the action the driver must perform.
pub ghost struct StepView {
    pub engine: EngineView,
    pub req: RequestView,
    pub items: Seq<DbItemView>,
    pub action: ActionView,
}

/// A step that changes nothing and asks the driver to call again.
pub open spec fn step_stay(s: EngineView, req: RequestView) -> StepView {
    StepView { engine: s, req, items: Seq::empty(), action: ActionView::Proceed }
}

/// A fatal step: the error is the run's final item and the run ends.
pub open spec fn step_fatal(s: EngineView, req: RequestView, chain: Seq<Seq<char>>) -> StepView {
    StepView {
        engine: EngineView { plan: s.plan, idx: s.idx, phase: PhaseView::Done, lease: s.lease },
        req,
        items: seq![DbItemView::Error(chain)],
        action: ActionView::Finished,
    }
}

/// A step that finishes the current statement and moves to the next.
pub open spec fn step_advance(s: EngineView, req: RequestView) -> StepView {
    StepView {
        engine: EngineView { plan: s.plan, idx: s.idx + 1, phase: PhaseView::Ready, lease: s.lease },
        req,
        items: Seq::empty(),
        action: ActionView::Proceed,
    }
}

/// The engine with only its phase changed.
pub open spec fn with_phase(s: EngineView, phase: PhaseView) -> EngineView {
    EngineView { plan: s.plan, idx: s.idx, phase, lease: s.lease }
}

/// The engine with the lease acquired and the phase changed.
pub open spec fn with_lease(s: EngineView, phase: PhaseView) -> EngineView {
    EngineView { plan: s.plan, idx: s.idx, phase, lease: true }
}

/// What a `Ready` step does: finish the run past the last statement, yield
/// a static constant or a carried parse failure directly, or start the
/// current statement's outside work.
pub open spec fn spec_step_ready(s: EngineView, req: RequestView) -> StepView {
    if s.idx >= s.plan.len() {
        StepView {
            engine: with_phase(s, PhaseView::Done),
            req,
            items: Seq::empty(),
            action: ActionView::Finished,
        }
    } else {
        match s.plan[s.idx] {
            ParsedStatementView::StaticSimpleSelect(row) => StepView {
                engine: EngineView {
                    plan: s.plan,
                    idx: s.idx + 1,
                    phase: PhaseView::Ready,
                    lease: s.lease,
                },
                req,
                items: seq![DbItemView::Row(row)],
                action: ActionView::Proceed,
            },
            ParsedStatementView::Error(e) => StepView {
                engine: EngineView {
                    plan: s.plan,
                    idx: s.idx + 1,
                    phase: PhaseView::Ready,
                    lease: s.lease,
                },
                req,
                items: seq![DbItemView::Error(e.push(parse_error_headline()))],
                action: ActionView::Proceed,
            },
            ParsedStatementView::CsvImport(ci) => if s.lease {
                StepView {
                    engine: with_phase(s, PhaseView::AwaitImport),
                    req,
                    items: Seq::empty(),
                    action: ActionView::RunImport(ci),
                }
            } else {
                StepView {
                    engine: with_phase(s, PhaseView::AwaitConnImport),
                    req,
                    items: Seq::empty(),
                    action: ActionView::AcquireConnection,
                }
            },
            ParsedStatementView::StmtWithParams(q) => StepView {
                engine: with_phase(s, PhaseView::AwaitBind { assign: false }),
                req,
                items: Seq::empty(),
                action: ActionView::ExtractParams(externals(q.params)),
            },
            ParsedStatementView::SetVariable { value, .. } => StepView {
                engine: with_phase(s, PhaseView::AwaitBind { assign: true }),
                req,
                items: Seq::empty(),
                action: ActionView::ExtractParams(externals(value.params)),
            },
        }
    }
}

/// What happens once the collaborator's parameter values are in: binding
/// succeeds and the bound query moves on to execution (acquiring the lease
/// first if it is not yet held), or binding fails and the run ends.
pub open spec fn spec_step_bound(
    s: EngineView,
    req: RequestView,
    assign: bool,
    ext: Seq<ExtractOutcomeView>,
) -> StepView {
    let q = stmt_query(s.plan[s.idx]);
    match spec_bind(q.params, req, ext, 0, 0) {
        Ok(args) => {
            let bound = StatementWithParamsView { sql: q.query, arguments: args };
            if assign {
                if s.lease {
                    StepView {
                        engine: with_phase(s, PhaseView::AwaitRow),
                        req,
                        items: Seq::empty(),
                        action: ActionView::FetchOptionalRow(bound),
                    }
                } else {
                    StepView {
                        engine: with_phase(s, PhaseView::AwaitConnAssign { query: bound }),
                        req,
                        items: Seq::empty(),
                        action: ActionView::AcquireConnection,
                    }
                }
            } else {
                if s.lease {
                    StepView {
                        engine: with_phase(s, PhaseView::Streaming { sql: q.query }),
                        req,
                        items: Seq::empty(),
                        action: ActionView::ExecuteQuery(bound),
                    }
                } else {
                    StepView {
                        engine: with_phase(s, PhaseView::AwaitConnQuery { query: bound }),
                        req,
                        items: Seq::empty(),
                        action: ActionView::AcquireConnection,
                    }
                }
            }
        },
        Err((index1, cause)) => step_fatal(s, req, binding_error_chain(index1 as nat, cause)),
    }
}

/// What an assignment's fetched value does to the request context: a
/// GET/POST target is set or removed, any other target is a Scope Error
/// that ends the run.
pub open spec fn spec_step_assign(
    s: EngineView,
    req: RequestView,
    value: Option<Seq<char>>,
) -> StepView {
    match stmt_variable(s.plan[s.idx]) {
        StmtParamView::External(d) => step_fatal(s, req, scope_error_chain(d)),
        variable => {
            let name = match variable {
                StmtParamView::Get(n) => n,
                StmtParamView::GetOrPost(n) => n,
                StmtParamView::Post(n) => n,
                StmtParamView::External(d) => d,
            };
            let to_get = !(variable is Post);
            let req2 = match (to_get, value) {
                (true, Some(v)) => RequestView {
                    get: req.get.insert(name, VarValue::Single(v)),
                    post: req.post,
                },
                (true, None) => RequestView { get: req.get.remove(name), post: req.post },
                (false, Some(v)) => RequestView {
                    get: req.get,
                    post: req.post.insert(name, VarValue::Single(v)),
                },
                (false, None) => RequestView { get: req.get, post: req.post.remove(name) },
            };
            StepView {
                engine: EngineView {
                    plan: s.plan,
                    idx: s.idx + 1,
                    phase: PhaseView::Ready,
                    lease: s.lease,
                },
                req: req2,
                items: Seq::empty(),
                action: ActionView::Proceed,
            }
        },
    }
}

/// The engine's complete transition relation: what one step emits, what
/// the driver must do next, and the state afterwards. Events that do not
/// answer the current phase change nothing.
pub open spec fn spec_step(s: EngineView, req: RequestView, ev: EventView) -> StepView {
    match s.phase {
        PhaseView::Ready => match ev {
            EventView::Tick => spec_step_ready(s, req),
            _ => step_stay(s, req),
        },
        PhaseView::Done => StepView {
            engine: s,
            req,
            items: Seq::empty(),
            action: ActionView::Finished,
        },
        PhaseView::AwaitBind { assign } => match ev {
            EventView::ParamsExtracted(ext) => spec_step_bound(s, req, assign, ext),
            _ => step_stay(s, req),
        },
        PhaseView::AwaitConnImport => match ev {
            EventView::Acquired => StepView {
                engine: with_lease(s, PhaseView::AwaitImport),
                req,
                items: Seq::empty(),
                action: ActionView::RunImport(
                    match s.plan[s.idx] {
                        ParsedStatementView::CsvImport(ci) => ci,
                        _ => arbitrary(),
                    },
                ),
            },
            EventView::AcquireFailed { pool_size, backend_kind, message } => step_fatal(
                s,
                req,
                acquisition_error_chain(pool_size, backend_kind, message),
            ),
            _ => step_stay(s, req),
        },
        PhaseView::AwaitImport => match ev {
            EventView::ImportDone => step_advance(s, req),
            EventView::ImportFailed { message } => step_fatal(s, req, seq![message]),
            _ => step_stay(s, req),
        },
        PhaseView::AwaitConnQuery { query } => match ev {
            EventView::Acquired => StepView {
                engine: with_lease(s, PhaseView::Streaming { sql: query.sql }),
                req,
                items: Seq::empty(),
                action: ActionView::ExecuteQuery(query),
            },
            EventView::AcquireFailed { pool_size, backend_kind, message } => step_fatal(
                s,
                req,
                acquisition_error_chain(pool_size, backend_kind, message),
            ),
            _ => step_stay(s, req),
        },
        PhaseView::Streaming { sql } => match ev {
            EventView::QueryUnit(unit) => match unit {
                DbResultUnitView::Failure(_) => StepView {
                    engine: EngineView {
                        plan: s.plan,
                        idx: s.idx + 1,
                        phase: PhaseView::Ready,
                        lease: s.lease,
                    },
                    req,
                    items: seq![mapped_item(sql, unit)],
                    action: ActionView::Proceed,
                },
                _ => StepView {
                    engine: s,
                    req,
                    items: seq![mapped_item(sql, unit)],
                    action: ActionView::FetchNextUnit,
                },
            },
            EventView::QueryEnd => step_advance(s, req),
            _ => step_stay(s, req),
        },
        PhaseView::AwaitConnAssign { query } => match ev {
            EventView::Acquired => StepView {
                engine: with_lease(s, PhaseView::AwaitRow),
                req,
                items: Seq::empty(),
                action: ActionView::FetchOptionalRow(query),
            },
            EventView::AcquireFailed { pool_size, backend_kind, message } => step_fatal(
                s,
                req,
                acquisition_error_chain(pool_size, backend_kind, message),
            ),
            _ => step_stay(s, req),
        },
        PhaseView::AwaitRow => match ev {
            EventView::RowFetched(value) => spec_step_assign(s, req, value),
            EventView::RowFetchFailed { message } => step_fatal(s, req, seq![message]),
            _ => step_stay(s, req),
        },
    }
}

/// The statement-stream execution engine.
pub struct Engine {
    plan: Vec<ParsedStatement>,
    idx: usize,
    phase: Phase,
    lease: bool,
}

impl View for Engine {
    type V = EngineView;

    closed spec fn view(&self) -> EngineView {
        EngineView {
            plan: self.plan.deep_view(),
            idx: self.idx as int,
            phase: self.phase@,
            lease: self.lease,
        }
    }
}

impl Engine {
    /// Starts a run of the given plan: at the first statement, nothing
    /// emitted yet, no connection held.
    pub fn new(plan: Vec<ParsedStatement>) -> (r: Engine)
        ensures
            r@.plan == plan.deep_view(),
            r@.idx == 0,
            r@.phase is Ready,
            !r@.lease,
            wf(r@),
    {
        Engine { plan, idx: 0, phase: Phase::Ready, lease: false }
    }

    /// Whether the run is over.
    pub fn done(&self) -> (r: bool)
        ensures
            r == (self@.phase is Done),
    {
        match self.phase {
            Phase::Done => true,
            _ => false,
        }
    }

    /// One transition of the machine: consumes the outcome of the previous
    /// outside operation, emits the output items that became available,
    /// and names the next outside operation. Equal, state for state and
    /// item for item, to [`spec_step`].
    pub fn step(&mut self, request: &mut RequestInfo, event: Event) -> (r: (Vec<DbItem>, Action))
        requires
            wf(old(self)@),
            event_fits(old(self)@, event@),
        ensures
            final(self)@ == spec_step(old(self)@, old(request)@, event@).engine,
            final(request)@ == spec_step(old(self)@, old(request)@, event@).req,
            r.0.deep_view() == spec_step(old(self)@, old(request)@, event@).items,
            r.1@ == spec_step(old(self)@, old(request)@, event@).action,
            wf(final(self)@),
    {
        let ghost s0 = self@;
        let ghost req0 = request@;
        let ghost ev = event@;
        let mut ph = Phase::Ready;
        core::mem::swap(&mut ph, &mut self.phase);
        match ph {
            Phase::Ready => {
                if self.idx == self.plan.len() {
                    self.phase = Phase::Done;
                    (Vec::new(), Action::Finished)
                } else {
                    match &self.plan[self.idx] {
                        ParsedStatement::StaticSimpleSelect(row) => {
                            let item = DbItem::Row(row.clone());
                            let plan_len = self.plan.len();
                        proof {
                            assert(self.idx < plan_len);
                        }
                        self.idx = self.idx + 1;
                            self.phase = Phase::Ready;
                            let mut items: Vec<DbItem> = Vec::new();
                            items.push(item);
                            proof {
                                assert(items.deep_view() =~= spec_step(s0, req0, ev).items);
                            }
                            (items, Action::Proceed)
                        },
                        ParsedStatement::Error(e) => {
                            let item = DbItem::Error(clone_anyhow_err(e));
                            let plan_len = self.plan.len();
                        proof {
                            assert(self.idx < plan_len);
                        }
                        self.idx = self.idx + 1;
                            self.phase = Phase::Ready;
                            let mut items: Vec<DbItem> = Vec::new();
                            items.push(item);
                            proof {
                                assert(items.deep_view() =~= spec_step(s0, req0, ev).items);
                            }
                            (items, Action::Proceed)
                        },
                        ParsedStatement::CsvImport(ci) => {
                            if self.lease {
                                let c = ci.clone();
                                self.phase = Phase::AwaitImport;
                                (Vec::new(), Action::RunImport(c))
                            } else {
                                self.phase = Phase::AwaitConnImport;
                                (Vec::new(), Action::AcquireConnection)
                            }
                        },
                        ParsedStatement::StmtWithParams(q) => {
                            let ex = collect_externals(&q.params);
                            self.phase = Phase::AwaitBind { assign: false };
                            (Vec::new(), Action::ExtractParams(ex))
                        },
                        ParsedStatement::SetVariable { value, .. } => {
                            let ex = collect_externals(&value.params);
                            self.phase = Phase::AwaitBind { assign: true };
                            (Vec::new(), Action::ExtractParams(ex))
                        },
                    }
                }
            },
            Phase::AwaitBind { assign } => {
                match event {
                    Event::ParamsExtracted(ext) => {
                        let bound = {
                            let stmt = match &self.plan[self.idx] {
                                ParsedStatement::StmtWithParams(q) => q,
                                ParsedStatement::SetVariable { value, .. } => value,
                                _ => vstd::pervasive::unreached(),
                            };
                            bind_parameters(stmt, &*request, &ext)
                        };
                        match bound {
                            Ok(q) => {
                                if assign {
                                    if self.lease {
                                        self.phase = Phase::AwaitRow;
                                        (Vec::new(), Action::FetchOptionalRow(q))
                                    } else {
                                        self.phase = Phase::AwaitConnAssign { query: q };
                                        (Vec::new(), Action::AcquireConnection)
                                    }
                                } else {
                                    if self.lease {
                                        self.phase = Phase::Streaming { sql: q.sql.clone() };
                                        (Vec::new(), Action::ExecuteQuery(q))
                                    } else {
                                        self.phase = Phase::AwaitConnQuery { query: q };
                                        (Vec::new(), Action::AcquireConnection)
                                    }
                                }
                            },
                            Err(f) => {
                                let chain = binding_error(f.param_index as u64, f.cause.as_str());
                                self.phase = Phase::Done;
                                let mut items: Vec<DbItem> = Vec::new();
                                items.push(DbItem::Error(chain));
                                proof {
                                    assert(items.deep_view() =~= spec_step(s0, req0, ev).items);
                                }
                                (items, Action::Finished)
                            },
                        }
                    },
                    _ => vstd::pervasive::unreached(),
                }
            },
            Phase::AwaitConnImport => {
                match event {
                    Event::Acquired => {
                        self.lease = true;
                        let ci = match &self.plan[self.idx] {
                            ParsedStatement::CsvImport(c) => c.clone(),
                            _ => vstd::pervasive::unreached(),
                        };
                        self.phase = Phase::AwaitImport;
                        (Vec::new(), Action::RunImport(ci))
                    },
                    Event::AcquireFailed { pool_size, backend_kind, message } => {
                        let chain = acquisition_error(
                            pool_size,
                            backend_kind.as_str(),
                            message.as_str(),
                        );
                        self.phase = Phase::Done;
                        let mut items: Vec<DbItem> = Vec::new();
                        items.push(DbItem::Error(chain));
                        proof {
                            assert(items.deep_view() =~= spec_step(s0, req0, ev).items);
                        }
                        (items, Action::Finished)
                    },
                    _ => vstd::pervasive::unreached(),
                }
            },
            Phase::AwaitImport => {
                match event {
                    Event::ImportDone => {
                        let plan_len = self.plan.len();
                        proof {
                            assert(self.idx < plan_len);
                        }
                        self.idx = self.idx + 1;
                        self.phase = Phase::Ready;
                        (Vec::new(), Action::Proceed)
                    },
                    Event::ImportFailed { message } => {
                        let chain = ErrorChain::single(message);
                        self.phase = Phase::Done;
                        let mut items: Vec<DbItem> = Vec::new();
                        items.push(DbItem::Error(chain));
                        proof {
                            assert(items.deep_view() =~= spec_step(s0, req0, ev).items);
                        }
                        (items, Action::Finished)
                    },
                    _ => vstd::pervasive::unreached(),
                }
            },
            Phase::AwaitConnQuery { query } => {
                match event {
                    Event::Acquired => {
                        self.lease = true;
                        self.phase = Phase::Streaming { sql: query.sql.clone() };
                        (Vec::new(), Action::ExecuteQuery(query))
                    },
                    Event::AcquireFailed { pool_size, backend_kind, message } => {
                        let chain = acquisition_error(
                            pool_size,
                            backend_kind.as_str(),
                            message.as_str(),
                        );
                        self.phase = Phase::Done;
                        let mut items: Vec<DbItem> = Vec::new();
                        items.push(DbItem::Error(chain));
                        proof {
                            assert(items.deep_view() =~= spec_step(s0, req0, ev).items);
                        }
                        (items, Action::Finished)
                    },
                    _ => vstd::pervasive::unreached(),
                }
            },
            Phase::Streaming { sql } => {
                match event {
                    Event::QueryUnit(unit) => {
                        let failed = match &unit {
                            DbResultUnit::Failure(_) => true,
                            _ => false,
                        };
                        let item = parse_single_sql_result(sql.as_str(), unit);
                        let mut items: Vec<DbItem> = Vec::new();
                        items.push(item);
                        proof {
                            assert(items.deep_view() =~= spec_step(s0, req0, ev).items);
                        }
                        if failed {
                            let plan_len = self.plan.len();
                        proof {
                            assert(self.idx < plan_len);
                        }
                        self.idx = self.idx + 1;
                            self.phase = Phase::Ready;
                            (items, Action::Proceed)
                        } else {
                            self.phase = Phase::Streaming { sql };
                            (items, Action::FetchNextUnit)
                        }
                    },
                    Event::QueryEnd => {
                        let plan_len = self.plan.len();
                        proof {
                            assert(self.idx < plan_len);
                        }
                        self.idx = self.idx + 1;
                        self.phase = Phase::Ready;
                        (Vec::new(), Action::Proceed)
                    },
                    _ => vstd::pervasive::unreached(),
                }
            },
            Phase::AwaitConnAssign { query } => {
                match event {
                    Event::Acquired => {
                        self.lease = true;
                        self.phase = Phase::AwaitRow;
                        (Vec::new(), Action::FetchOptionalRow(query))
                    },
                    Event::AcquireFailed { pool_size, backend_kind, message } => {
                        let chain = acquisition_error(
                            pool_size,
                            backend_kind.as_str(),
                            message.as_str(),
                        );
                        self.phase = Phase::Done;
                        let mut items: Vec<DbItem> = Vec::new();
                        items.push(DbItem::Error(chain));
                        proof {
                            assert(items.deep_view() =~= spec_step(s0, req0, ev).items);
                        }
                        (items, Action::Finished)
                    },
                    _ => vstd::pervasive::unreached(),
                }
            },
            Phase::AwaitRow => {
                match event {
                    Event::RowFetched(value) => {
                        let target = {
                            let variable = match &self.plan[self.idx] {
                                ParsedStatement::SetVariable { variable, .. } => variable,
                                _ => vstd::pervasive::unreached(),
                            };
                            vars_and_name(variable)
                        };
                        match target {
                            Ok((scope, name)) => {
                                apply_variable(request, &scope, name, value);
                                let plan_len = self.plan.len();
                        proof {
                            assert(self.idx < plan_len);
                        }
                        self.idx = self.idx + 1;
                                self.phase = Phase::Ready;
                                (Vec::new(), Action::Proceed)
                            },
                            Err(chain) => {
                                self.phase = Phase::Done;
                                let mut items: Vec<DbItem> = Vec::new();
                                items.push(DbItem::Error(chain));
                                proof {
                                    assert(items.deep_view() =~= spec_step(s0, req0, ev).items);
                                }
                                (items, Action::Finished)
                            },
                        }
                    },
                    Event::RowFetchFailed { message } => {
                        let chain = ErrorChain::single(message);
                        self.phase = Phase::Done;
                        let mut items: Vec<DbItem> = Vec::new();
                        items.push(DbItem::Error(chain));
                        proof {
                            assert(items.deep_view() =~= spec_step(s0, req0, ev).items);
                        }
                        (items, Action::Finished)
                    },
                    _ => vstd::pervasive::unreached(),
                }
            },
            Phase::Done => vstd::pervasive::unreached(),
        }
    }
}

} // verus!
