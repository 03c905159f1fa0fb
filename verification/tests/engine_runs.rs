//! Whole-run scenarios: the engine driven by a scripted backend.
use sqlstream::engine::{Action, Engine, Event};
use sqlstream::items::{CellValue, DbItem, DbResultUnit, RowData};
use sqlstream::plan::{CsvImport, ParsedStatement, StmtParam, StmtWithParams};
use sqlstream::request::{RequestInfo, SingleOrVec};

fn text_row(name: &str, value: &str) -> RowData {
    RowData { columns: vec![(name.to_string(), CellValue::Text(value.to_string()))] }
}

fn number_row(name: &str, value: i64) -> RowData {
    RowData { columns: vec![(name.to_string(), CellValue::Number(value))] }
}

fn query(sql: &str) -> ParsedStatement {
    ParsedStatement::StmtWithParams(StmtWithParams { query: sql.to_string(), params: vec![] })
}

fn action_tag(action: &Action) -> &'static str {
    match action {
        Action::Proceed => "proceed",
        Action::Finished => "finished",
        Action::AcquireConnection => "acquire",
        Action::RunImport(_) => "import",
        Action::ExtractParams(_) => "extract",
        Action::ExecuteQuery(_) => "execute",
        Action::FetchNextUnit => "fetch_next",
        Action::FetchOptionalRow(_) => "fetch_row",
    }
}

/// Drives the engine to completion: actions needing no outside work are
/// answered directly, every other action consumes the next scripted event.
fn run_scripted(
    plan: Vec<ParsedStatement>,
    request: &mut RequestInfo,
    script: Vec<Event>,
) -> (Vec<DbItem>, Vec<&'static str>) {
    let mut engine = Engine::new(plan);
    let mut items = Vec::new();
    let mut tags = Vec::new();
    let mut script = script.into_iter();
    let mut event = Event::Tick;
    loop {
        let (mut out, action) = engine.step(request, event);
        items.append(&mut out);
        tags.push(action_tag(&action));
        event = match action {
            Action::Finished => break,
            Action::Proceed => Event::Tick,
            Action::ExtractParams(ps) => {
                if ps.is_empty() {
                    Event::ParamsExtracted(vec![])
                } else {
                    script.next().expect("script exhausted at parameter extraction")
                }
            }
            _ => script.next().expect("script exhausted"),
        };
    }
    assert!(engine.done());
    (items, tags)
}

/// A static constant, a query failing at execution time, then a healthy
/// query: the failure is reported inline and the run continues in order.
#[test]
fn execution_failure_is_recoverable() {
    let plan = vec![
        ParsedStatement::StaticSimpleSelect(text_row("message", "ok")),
        query("SELECT 1/0"),
        query("SELECT 42"),
    ];
    let mut request = RequestInfo::new();
    let script = vec![
        Event::Acquired,
        Event::QueryUnit(DbResultUnit::Failure("division by zero".to_string())),
        Event::QueryUnit(DbResultUnit::Row(number_row("answer", 42))),
        Event::QueryUnit(DbResultUnit::Completed),
        Event::QueryEnd,
    ];
    let (items, tags) = run_scripted(plan, &mut request, script);
    assert_eq!(items.len(), 4);
    match &items[0] {
        DbItem::Row(r) => {
            assert_eq!(r.columns.len(), 1);
            assert_eq!(r.columns[0].0, "message");
            match &r.columns[0].1 {
                CellValue::Text(t) => assert_eq!(t, "ok"),
                _ => panic!("expected text cell"),
            }
        }
        _ => panic!("expected a row first"),
    }
    match &items[1] {
        DbItem::Error(e) => {
            assert_eq!(
                e.messages,
                vec![
                    "Failed to execute SQL statement".to_string(),
                    "SELECT 1/0".to_string(),
                    "division by zero".to_string(),
                ]
            );
        }
        _ => panic!("expected the execution error second"),
    }
    match &items[2] {
        DbItem::Row(r) => match &r.columns[0].1 {
            CellValue::Number(n) => assert_eq!(*n, 42),
            _ => panic!("expected number cell"),
        },
        _ => panic!("expected the healthy row third"),
    }
    assert!(matches!(items[3], DbItem::FinishedQuery));
    // The whole run acquired the connection exactly once.
    assert_eq!(tags.iter().filter(|t| **t == "acquire").count(), 1);
}

/// An assignment whose inner query fails ends the run with that single
/// error item.
#[test]
fn assignment_fetch_failure_is_fatal() {
    let plan = vec![
        ParsedStatement::SetVariable {
            variable: StmtParam::Get("x".to_string()),
            value: StmtWithParams {
                query: "SELECT name FROM missing_table".to_string(),
                params: vec![],
            },
        },
        ParsedStatement::StaticSimpleSelect(text_row("never", "reached")),
    ];
    let mut request = RequestInfo::new();
    let script = vec![
        Event::Acquired,
        Event::RowFetchFailed { message: "no such table: missing_table".to_string() },
    ];
    let (items, _) = run_scripted(plan, &mut request, script);
    assert_eq!(items.len(), 1);
    match &items[0] {
        DbItem::Error(e) => {
            assert_eq!(e.messages, vec!["no such table: missing_table".to_string()]);
        }
        _ => panic!("expected a single error item"),
    }
}

/// A binding failure ends the run before the statement executes, citing
/// the 1-based parameter index; later statements never run.
#[test]
fn binding_failure_is_fatal() {
    let plan = vec![
        ParsedStatement::StmtWithParams(StmtWithParams {
            query: "SELECT $1, $2".to_string(),
            params: vec![
                StmtParam::Get("present".to_string()),
                StmtParam::External("sqlpage.missing_field".to_string()),
            ],
        }),
        ParsedStatement::StaticSimpleSelect(text_row("never", "reached")),
    ];
    let mut request = RequestInfo::new();
    let script = vec![Event::ParamsExtracted(vec![
        sqlstream::binder::ExtractOutcome::Failure("required field is missing".to_string()),
    ])];
    let (items, tags) = run_scripted(plan, &mut request, script);
    assert_eq!(items.len(), 1);
    match &items[0] {
        DbItem::Error(e) => {
            assert_eq!(
                e.messages,
                vec![
                    "Failed to extract the value of parameter 2".to_string(),
                    "required field is missing".to_string(),
                ]
            );
        }
        _ => panic!("expected a single binding error"),
    }
    // No connection was ever requested.
    assert_eq!(tags.iter().filter(|t| **t == "acquire").count(), 0);
}

/// An assignment's value is observed by a later statement's parameter
/// reference within the same run, and a no-row result removes the
/// variable.
#[test]
fn assignment_feeds_later_binding() {
    let plan = vec![
        ParsedStatement::SetVariable {
            variable: StmtParam::Get("x".to_string()),
            value: StmtWithParams { query: "SELECT 'fresh'".to_string(), params: vec![] },
        },
        ParsedStatement::StmtWithParams(StmtWithParams {
            query: "SELECT $1".to_string(),
            params: vec![StmtParam::Get("x".to_string())],
        }),
    ];
    let mut request = RequestInfo::new();
    request
        .get_variables
        .insert("x".to_string(), SingleOrVec::Single("stale".to_string()));

    let mut engine = Engine::new(plan);
    // Statement 1: bind (no externals), acquire, fetch the single value.
    let (_, a) = engine.step(&mut request, Event::Tick);
    assert!(matches!(a, Action::ExtractParams(_)));
    let (_, a) = engine.step(&mut request, Event::ParamsExtracted(vec![]));
    assert!(matches!(a, Action::AcquireConnection));
    let (_, a) = engine.step(&mut request, Event::Acquired);
    assert!(matches!(a, Action::FetchOptionalRow(_)));
    let (out, a) = engine.step(&mut request, Event::RowFetched(Some("fresh".to_string())));
    assert!(out.is_empty(), "the intermediate value is never surfaced");
    assert!(matches!(a, Action::Proceed));
    match request.get_variables.get("x") {
        Some(SingleOrVec::Single(v)) => assert_eq!(v, "fresh"),
        _ => panic!("variable should have been set"),
    }
    // Statement 2: the reference to x binds the updated value.
    let (_, a) = engine.step(&mut request, Event::Tick);
    assert!(matches!(a, Action::ExtractParams(ref ps) if ps.is_empty()));
    let (_, a) = engine.step(&mut request, Event::ParamsExtracted(vec![]));
    match a {
        Action::ExecuteQuery(q) => {
            assert_eq!(q.sql, "SELECT $1");
            assert_eq!(q.arguments.len(), 1);
            match &q.arguments[0] {
                sqlstream::binder::Argument::Text(t) => assert_eq!(t, "fresh"),
                _ => panic!("expected the updated text value"),
            }
        }
        _ => panic!("the held lease should go straight to execution"),
    }
}

/// An assignment whose inner query returns no rows removes the variable
/// from its scope.
#[test]
fn assignment_without_row_removes_variable() {
    let plan = vec![ParsedStatement::SetVariable {
        variable: StmtParam::Post("gone".to_string()),
        value: StmtWithParams { query: "SELECT 1 WHERE 0 = 1".to_string(), params: vec![] },
    }];
    let mut request = RequestInfo::new();
    request
        .post_variables
        .insert("gone".to_string(), SingleOrVec::Single("was here".to_string()));
    let script = vec![Event::Acquired, Event::RowFetched(None)];
    let (items, _) = run_scripted(plan, &mut request, script);
    assert!(items.is_empty());
    assert!(request.post_variables.get("gone").is_none());
}

/// Assigning to anything but a GET or POST variable is a Scope Error and
/// ends the run.
#[test]
fn assignment_to_other_scope_is_fatal() {
    let plan = vec![ParsedStatement::SetVariable {
        variable: StmtParam::External("sqlpage.cookie".to_string()),
        value: StmtWithParams { query: "SELECT 1".to_string(), params: vec![] },
    }];
    let mut request = RequestInfo::new();
    let script = vec![Event::Acquired, Event::RowFetched(Some("1".to_string()))];
    let (items, _) = run_scripted(plan, &mut request, script);
    assert_eq!(items.len(), 1);
    match &items[0] {
        DbItem::Error(e) => {
            assert_eq!(
                e.messages,
                vec!["Only GET and POST variables can be set, not sqlpage.cookie".to_string()]
            );
        }
        _ => panic!("expected a scope error"),
    }
}

/// A plan of static constants only never asks for a connection.
#[test]
fn static_statements_never_acquire() {
    let plan = vec![
        ParsedStatement::StaticSimpleSelect(text_row("a", "1")),
        ParsedStatement::StaticSimpleSelect(text_row("b", "2")),
        ParsedStatement::StaticSimpleSelect(text_row("c", "3")),
    ];
    let mut request = RequestInfo::new();
    let (items, tags) = run_scripted(plan, &mut request, vec![]);
    assert_eq!(items.len(), 3);
    assert!(items.iter().all(|i| matches!(i, DbItem::Row(_))));
    assert_eq!(tags.iter().filter(|t| **t == "acquire").count(), 0);
}

/// Several queries and assignments share one connection acquisition.
#[test]
fn one_acquisition_for_the_whole_run() {
    let plan = vec![
        query("SELECT 1"),
        ParsedStatement::SetVariable {
            variable: StmtParam::Get("y".to_string()),
            value: StmtWithParams { query: "SELECT 2".to_string(), params: vec![] },
        },
        query("SELECT 3"),
    ];
    let mut request = RequestInfo::new();
    let script = vec![
        Event::Acquired,
        Event::QueryUnit(DbResultUnit::Row(number_row("n", 1))),
        Event::QueryEnd,
        Event::RowFetched(Some("2".to_string())),
        Event::QueryUnit(DbResultUnit::Row(number_row("n", 3))),
        Event::QueryEnd,
    ];
    let (items, tags) = run_scripted(plan, &mut request, script);
    assert_eq!(items.len(), 2);
    assert_eq!(tags.iter().filter(|t| **t == "acquire").count(), 1);
}

/// A carried parse failure is reported in sequence position, freshly
/// reconstituted with the standard headline, and execution continues.
#[test]
fn parse_failure_is_reported_in_position() {
    let chain = sqlstream::error::ErrorChain {
        messages: vec!["syntax error near FROM".to_string(), "line 3".to_string()],
    };
    let plan = vec![
        ParsedStatement::Error(chain),
        ParsedStatement::StaticSimpleSelect(text_row("after", "still runs")),
    ];
    let mut request = RequestInfo::new();
    let (items, _) = run_scripted(plan, &mut request, vec![]);
    assert_eq!(items.len(), 2);
    match &items[0] {
        DbItem::Error(e) => {
            assert_eq!(
                e.messages,
                vec![
                    "syntax error near FROM".to_string(),
                    "line 3".to_string(),
                    "SQLPage could not parse and prepare this SQL statement".to_string(),
                ]
            );
        }
        _ => panic!("expected the carried parse failure first"),
    }
    assert!(matches!(items[1], DbItem::Row(_)));
}

/// A failed connection acquisition ends the run with a diagnosable error
/// naming the pool's capacity and backend kind.
#[test]
fn acquisition_failure_is_fatal_and_diagnosable() {
    let plan = vec![query("SELECT 1"), query("SELECT 2")];
    let mut request = RequestInfo::new();
    let script = vec![Event::AcquireFailed {
        pool_size: 8,
        backend_kind: "Postgres".to_string(),
        message: "pool timed out".to_string(),
    }];
    let (items, _) = run_scripted(plan, &mut request, script);
    assert_eq!(items.len(), 1);
    match &items[0] {
        DbItem::Error(e) => {
            assert_eq!(
                e.messages,
                vec![
                    "Unable to acquire a database connection to execute the SQL file. \
                     All of the 8 Postgres connections are busy."
                        .to_string(),
                    "pool timed out".to_string(),
                ]
            );
        }
        _ => panic!("expected the acquisition error"),
    }
}

/// A bulk import acquires the lease, runs the collaborator, and a failure
/// there is fatal to the run.
#[test]
fn bulk_import_success_and_failure() {
    let import = ParsedStatement::CsvImport(CsvImport {
        table_name: "users".to_string(),
        source: "users.csv".to_string(),
    });
    let mut request = RequestInfo::new();
    let mut engine = Engine::new(vec![import]);
    let (_, a) = engine.step(&mut request, Event::Tick);
    assert!(matches!(a, Action::AcquireConnection));
    let (_, a) = engine.step(&mut request, Event::Acquired);
    match a {
        Action::RunImport(ci) => {
            assert_eq!(ci.table_name, "users");
            assert_eq!(ci.source, "users.csv");
        }
        _ => panic!("expected the import to run"),
    }
    let (items, a) = engine.step(&mut request, Event::ImportDone);
    assert!(items.is_empty());
    assert!(matches!(a, Action::Proceed));
    let (items, a) = engine.step(&mut request, Event::Tick);
    assert!(items.is_empty());
    assert!(matches!(a, Action::Finished));
    assert!(engine.done());

    // A failing import ends the run with one error item.
    let import = ParsedStatement::CsvImport(CsvImport {
        table_name: "users".to_string(),
        source: "users.csv".to_string(),
    });
    let plan = vec![import, query("SELECT 1")];
    let mut request = RequestInfo::new();
    let script = vec![
        Event::Acquired,
        Event::ImportFailed { message: "users.csv: no such file".to_string() },
    ];
    let (items, _) = run_scripted(plan, &mut request, script);
    assert_eq!(items.len(), 1);
    match &items[0] {
        DbItem::Error(e) => assert_eq!(e.messages, vec!["users.csv: no such file".to_string()]),
        _ => panic!("expected the import error"),
    }
}
