//! Component-level checks: error enrichment, decimal rendering, binding,
//! variable resolution and the result mapper.
use sqlstream::binder::{bind_parameters, Argument, ExtractOutcome};
use sqlstream::error::{
    acquisition_error, binding_error, clone_anyhow_err, highlight_sql_error, u64_to_decimal,
    ErrorChain,
};
use sqlstream::items::{parse_single_sql_result, CellValue, DbItem, DbResultUnit, RowData};
use sqlstream::plan::{StmtParam, StmtWithParams};
use sqlstream::request::{
    apply_variable, single_or_vec_text, vars_and_name, RequestInfo, SingleOrVec, TargetScope,
};

#[test]
fn decimal_rendering_is_exact() {
    assert_eq!(u64_to_decimal(0), "0");
    assert_eq!(u64_to_decimal(7), "7");
    assert_eq!(u64_to_decimal(10), "10");
    assert_eq!(u64_to_decimal(12345), "12345");
    assert_eq!(u64_to_decimal(u64::MAX), "18446744073709551615");
}

#[test]
fn parse_failure_reconstitution_preserves_chain_order() {
    let original = ErrorChain {
        messages: vec!["outermost".to_string(), "innermost".to_string()],
    };
    let fresh = clone_anyhow_err(&original);
    assert_eq!(
        fresh.messages,
        vec![
            "outermost".to_string(),
            "innermost".to_string(),
            "SQLPage could not parse and prepare this SQL statement".to_string(),
        ]
    );
    // The original is untouched: the fresh value shares no state with it.
    assert_eq!(original.messages.len(), 2);
    assert_eq!(original.len(), 2);
}

#[test]
fn sql_error_enrichment_orders_the_chain() {
    let e = highlight_sql_error("Failed to prepare SQL statement", "SELEC 1", "syntax error");
    assert_eq!(
        e.messages,
        vec![
            "Failed to prepare SQL statement".to_string(),
            "SELEC 1".to_string(),
            "syntax error".to_string(),
        ]
    );
}

#[test]
fn acquisition_error_names_capacity_and_kind() {
    let e = acquisition_error(12, "Sqlite", "busy");
    assert_eq!(
        e.messages[0],
        "Unable to acquire a database connection to execute the SQL file. \
         All of the 12 Sqlite connections are busy."
    );
    assert_eq!(e.messages[1], "busy");
}

#[test]
fn binding_error_cites_the_index() {
    let e = binding_error(3, "no such field");
    assert_eq!(
        e.messages,
        vec![
            "Failed to extract the value of parameter 3".to_string(),
            "no such field".to_string(),
        ]
    );
}

#[test]
fn vars_and_name_accepts_get_and_post_only() {
    match vars_and_name(&StmtParam::Get("a".to_string())) {
        Ok((TargetScope::Get, name)) => assert_eq!(name, "a"),
        _ => panic!("GET names the GET scope"),
    }
    match vars_and_name(&StmtParam::GetOrPost("b".to_string())) {
        Ok((TargetScope::Get, name)) => assert_eq!(name, "b"),
        _ => panic!("GET-or-POST assigns the GET scope"),
    }
    match vars_and_name(&StmtParam::Post("c".to_string())) {
        Ok((TargetScope::Post, name)) => assert_eq!(name, "c"),
        _ => panic!("POST names the POST scope"),
    }
    match vars_and_name(&StmtParam::External("sqlpage.header".to_string())) {
        Err(e) => assert_eq!(
            e.messages,
            vec!["Only GET and POST variables can be set, not sqlpage.header".to_string()]
        ),
        _ => panic!("anything else is a scope error"),
    }
}

#[test]
fn apply_variable_sets_and_removes() {
    let mut request = RequestInfo::new();
    apply_variable(
        &mut request,
        &TargetScope::Get,
        "k".to_string(),
        Some("v1".to_string()),
    );
    match request.get_variables.get("k") {
        Some(SingleOrVec::Single(v)) => assert_eq!(v, "v1"),
        _ => panic!("value should be set"),
    }
    // Overwrites a prior multi-valued entry with a single value.
    request
        .get_variables
        .insert("m".to_string(), SingleOrVec::Multi(vec!["a".to_string(), "b".to_string()]));
    apply_variable(
        &mut request,
        &TargetScope::Get,
        "m".to_string(),
        Some("single".to_string()),
    );
    match request.get_variables.get("m") {
        Some(SingleOrVec::Single(v)) => assert_eq!(v, "single"),
        _ => panic!("multi entry should be replaced"),
    }
    apply_variable(&mut request, &TargetScope::Get, "k".to_string(), None);
    assert!(request.get_variables.get("k").is_none());
    // Removing an absent name is a no-op.
    apply_variable(&mut request, &TargetScope::Post, "absent".to_string(), None);
    assert!(request.post_variables.get("absent").is_none());
}

#[test]
fn multi_valued_variables_join_with_commas() {
    let v = SingleOrVec::Multi(vec!["a".to_string(), "b".to_string(), "c".to_string()]);
    assert_eq!(single_or_vec_text(&v), "a,b,c");
    let one = SingleOrVec::Multi(vec!["only".to_string()]);
    assert_eq!(single_or_vec_text(&one), "only");
    let none = SingleOrVec::Multi(vec![]);
    assert_eq!(single_or_vec_text(&none), "");
    let single = SingleOrVec::Single("plain".to_string());
    assert_eq!(single_or_vec_text(&single), "plain");
}

#[test]
fn binding_resolves_variables_and_consumes_outcomes_in_order() {
    let mut request = RequestInfo::new();
    request
        .get_variables
        .insert("a".to_string(), SingleOrVec::Single("1".to_string()));
    request
        .post_variables
        .insert("b".to_string(), SingleOrVec::Single("2".to_string()));
    request
        .post_variables
        .insert("c".to_string(), SingleOrVec::Single("from post".to_string()));
    let stmt = StmtWithParams {
        query: "SELECT $1, $2, $3, $4, $5, $6".to_string(),
        params: vec![
            StmtParam::Get("a".to_string()),
            StmtParam::Post("b".to_string()),
            StmtParam::GetOrPost("c".to_string()),
            StmtParam::Get("missing".to_string()),
            StmtParam::External("sqlpage.one".to_string()),
            StmtParam::External("sqlpage.two".to_string()),
        ],
    };
    let extracted = vec![
        ExtractOutcome::Present("ext".to_string()),
        ExtractOutcome::Absent,
    ];
    let bound = bind_parameters(&stmt, &request, &extracted).expect("binding succeeds");
    assert_eq!(bound.sql, "SELECT $1, $2, $3, $4, $5, $6");
    assert_eq!(bound.arguments.len(), 6);
    let expect_text = |arg: &Argument, want: &str| match arg {
        Argument::Text(t) => assert_eq!(t, want),
        _ => panic!("expected text argument"),
    };
    expect_text(&bound.arguments[0], "1");
    expect_text(&bound.arguments[1], "2");
    expect_text(&bound.arguments[2], "from post");
    assert!(matches!(bound.arguments[3], Argument::Null));
    expect_text(&bound.arguments[4], "ext");
    assert!(matches!(bound.arguments[5], Argument::Null));
}

#[test]
fn get_or_post_prefers_the_get_scope() {
    let mut request = RequestInfo::new();
    request
        .get_variables
        .insert("both".to_string(), SingleOrVec::Single("from get".to_string()));
    request
        .post_variables
        .insert("both".to_string(), SingleOrVec::Single("from post".to_string()));
    let stmt = StmtWithParams {
        query: "SELECT $1".to_string(),
        params: vec![StmtParam::GetOrPost("both".to_string())],
    };
    let bound = bind_parameters(&stmt, &request, &vec![]).expect("binding succeeds");
    match &bound.arguments[0] {
        Argument::Text(t) => assert_eq!(t, "from get"),
        _ => panic!("expected the GET value"),
    }
}

#[test]
fn binding_failure_carries_the_overall_position() {
    let request = RequestInfo::new();
    let stmt = StmtWithParams {
        query: "SELECT $1, $2, $3".to_string(),
        params: vec![
            StmtParam::Get("a".to_string()),
            StmtParam::External("sqlpage.bad".to_string()),
            StmtParam::Get("c".to_string()),
        ],
    };
    let extracted = vec![ExtractOutcome::Failure("broken".to_string())];
    match bind_parameters(&stmt, &request, &extracted) {
        Err(f) => {
            assert_eq!(f.param_index, 2);
            assert_eq!(f.cause, "broken");
        }
        Ok(_) => panic!("binding should fail at the second parameter"),
    }
}

#[test]
fn result_mapper_is_one_to_one() {
    let row = RowData {
        columns: vec![("n".to_string(), CellValue::Number(5))],
    };
    match parse_single_sql_result("SELECT 5", DbResultUnit::Row(row)) {
        DbItem::Row(r) => match &r.columns[0].1 {
            CellValue::Number(n) => assert_eq!(*n, 5),
            _ => panic!("expected the number back"),
        },
        _ => panic!("a row maps to a row item"),
    }
    match parse_single_sql_result("UPDATE t SET x = 1", DbResultUnit::Completed) {
        DbItem::FinishedQuery => {}
        _ => panic!("a completion signal maps to a finished-query item"),
    }
    match parse_single_sql_result("SELECT boom", DbResultUnit::Failure("bad column".to_string())) {
        DbItem::Error(e) => assert_eq!(
            e.messages,
            vec![
                "Failed to execute SQL statement".to_string(),
                "SELECT boom".to_string(),
                "bad column".to_string(),
            ]
        ),
        _ => panic!("a backend error maps to an enriched error item"),
    }
}

#[test]
fn error_chain_single_holds_one_message() {
    let e = ErrorChain::single("alone".to_string());
    assert_eq!(e.messages, vec!["alone".to_string()]);
    assert_eq!(e.len(), 1);
    let copy = e.clone();
    assert_eq!(copy.messages, e.messages);
}

#[test]
fn boolean_and_null_cells_round_trip_through_rows() {
    let row = RowData {
        columns: vec![
            ("flag".to_string(), CellValue::Boolean(true)),
            ("nothing".to_string(), CellValue::Null),
        ],
    };
    let copy = row.clone();
    assert!(matches!(copy.columns[0].1, CellValue::Boolean(true)));
    assert!(matches!(copy.columns[1].1, CellValue::Null));
}
