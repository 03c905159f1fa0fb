//! The statement plan: the parsed representation of one statement-sequence
//! unit, as the parser hands it to the engine. Statement order is
//! significant: statements execute strictly sequentially and their items
//! appear in the output in plan order.
use vstd::prelude::*;
use crate::error::ErrorChain;
use crate::items::RowData;

verus! {

/// A declarative parameter reference, resolved at bind time.
///
/// `Get`, `Post` and `GetOrPost` name request variables and are resolved by
/// the engine itself from the request context. `External` stands for any
/// other pseudo-function reference; its value is produced by the external
/// value-extraction collaborator, and the carried string describes the
/// reference for error messages.
pub enum StmtParam {
    Get(String),
    Post(String),
    GetOrPost(String),
    External(String),
}

/// The mathematical value of a [`StmtParam`].
pub ghost enum StmtParamView {
    Get(Seq<char>),
    Post(Seq<char>),
    GetOrPost(Seq<char>),
    External(Seq<char>),
}

impl View for StmtParam {
    type V = StmtParamView;

    open spec fn view(&self) -> StmtParamView {
        match self {
            StmtParam::Get(n) => StmtParamView::Get(n@),
            StmtParam::Post(n) => StmtParamView::Post(n@),
            StmtParam::GetOrPost(n) => StmtParamView::GetOrPost(n@),
            StmtParam::External(d) => StmtParamView::External(d@),
        }
    }
}

impl DeepView for StmtParam {
    type V = StmtParamView;

    open spec fn deep_view(&self) -> StmtParamView {
        self.view()
    }
}

impl Clone for StmtParam {
    fn clone(&self) -> (r: Self)
        ensures
            r@ == self@,
    {
        match self {
            StmtParam::Get(n) => StmtParam::Get(n.clone()),
            StmtParam::Post(n) => StmtParam::Post(n.clone()),
            StmtParam::GetOrPost(n) => StmtParam::GetOrPost(n.clone()),
            StmtParam::External(d) => StmtParam::External(d.clone()),
        }
    }
}

/// One SQL statement together with its ordered parameter references.
pub struct StmtWithParams {
    pub query: String,
    pub params: Vec<StmtParam>,
}

/// The mathematical value of a [`StmtWithParams`].
pub ghost struct StmtWithParamsView {
    pub query: Seq<char>,
    pub params: Seq<StmtParamView>,
}

impl View for StmtWithParams {
    type V = StmtWithParamsView;

    open spec fn view(&self) -> StmtWithParamsView {
        StmtWithParamsView { query: self.query@, params: self.params.deep_view() }
    }
}

impl Clone for StmtWithParams {
    fn clone(&self) -> (r: Self)
        ensures
            r@ == self@,
    {
        let params = self.params.clone();
        proof {
            assert forall|i: int| 0 <= i < self.params@.len() implies params.deep_view()[i]
                == self.params.deep_view()[i] by {
                assert(cloned(self.params[i], params[i]));
            }
            assert(params.deep_view() =~= self.params.deep_view());
        }
        StmtWithParams { query: self.query.clone(), params }
    }
}

/// A declarative description of a bulk tabular-data ingestion operation.
/// The engine never interprets it; it is handed whole to the external
/// import collaborator together with the connection lease.
pub struct CsvImport {
    pub table_name: String,
    pub source: String,
}

/// The mathematical value of a [`CsvImport`].
pub ghost struct CsvImportView {
    pub table_name: Seq<char>,
    pub source: Seq<char>,
}

impl View for CsvImport {
    type V = CsvImportView;

    open spec fn view(&self) -> CsvImportView {
        CsvImportView { table_name: self.table_name@, source: self.source@ }
    }
}

impl Clone for CsvImport {
    fn clone(&self) -> (r: Self)
        ensures
            r@ == self@,
    {
        CsvImport { table_name: self.table_name.clone(), source: self.source.clone() }
    }
}

/// One parsed statement of a plan.
pub enum ParsedStatement {
    /// A parameterized query whose results stream into the output.
    StmtWithParams(StmtWithParams),
    /// A bulk tabular-data import, run by the external import collaborator.
    CsvImport(CsvImport),
    /// An assignment: the inner query's first row, first column becomes the
    /// named variable's new value; no row removes the variable.
    SetVariable { variable: StmtParam, value: StmtWithParams },
    /// A value known at parse time, yielded as a row without touching the
    /// database.
    StaticSimpleSelect(RowData),
    /// A statement that failed to parse, carried forward so the failure is
    /// reported in correct sequence position.
    Error(ErrorChain),
}

/// The mathematical value of a [`ParsedStatement`].
pub ghost enum ParsedStatementView {
    StmtWithParams(StmtWithParamsView),
    CsvImport(CsvImportView),
    SetVariable { variable: StmtParamView, value: StmtWithParamsView },
    StaticSimpleSelect(Seq<(Seq<char>, crate::items::CellView)>),
    Error(Seq<Seq<char>>),
}

impl View for ParsedStatement {
    type V = ParsedStatementView;

    open spec fn view(&self) -> ParsedStatementView {
        match self {
            ParsedStatement::StmtWithParams(s) => ParsedStatementView::StmtWithParams(s@),
            ParsedStatement::CsvImport(c) => ParsedStatementView::CsvImport(c@),
            ParsedStatement::SetVariable { variable, value } => ParsedStatementView::SetVariable {
                variable: variable@,
                value: value@,
            },
            ParsedStatement::StaticSimpleSelect(r) => ParsedStatementView::StaticSimpleSelect(r@),
            ParsedStatement::Error(e) => ParsedStatementView::Error(e@),
        }
    }
}

impl DeepView for ParsedStatement {
    type V = ParsedStatementView;

    open spec fn deep_view(&self) -> ParsedStatementView {
        self.view()
    }
}

} // verus!
