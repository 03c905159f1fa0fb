//! Output items and the result mapper: each backend result unit is
//! translated into exactly one output item, in the backend's own order.
use vstd::prelude::*;
use crate::error::{enriched_error, ErrorChain};

verus! {

/// One column value of a result row, as a tagged variant.
pub enum CellValue {
    Text(String),
    Number(i64),
    Boolean(bool),
    Null,
}

/// The mathematical value of a [`CellValue`].
pub ghost enum CellView {
    Text(Seq<char>),
    Number(int),
    Boolean(bool),
    Null,
}

impl View for CellValue {
    type V = CellView;

    open spec fn view(&self) -> CellView {
        match self {
            CellValue::Text(s) => CellView::Text(s@),
            CellValue::Number(n) => CellView::Number(*n as int),
            CellValue::Boolean(b) => CellView::Boolean(*b),
            CellValue::Null => CellView::Null,
        }
    }
}

impl Clone for CellValue {
    fn clone(&self) -> (r: Self)
        ensures
            r@ == self@,
    {
        match self {
            CellValue::Text(s) => CellValue::Text(s.clone()),
            CellValue::Number(n) => CellValue::Number(*n),
            CellValue::Boolean(b) => CellValue::Boolean(*b),
            CellValue::Null => CellValue::Null,
        }
    }
}

/// One result row: its columns in order, each a name and a value.
pub struct RowData {
    pub columns: Vec<(String, CellValue)>,
}

impl View for RowData {
    type V = Seq<(Seq<char>, CellView)>;

    open spec fn view(&self) -> Seq<(Seq<char>, CellView)> {
        Seq::new(self.columns@.len(), |i: int| (self.columns@[i].0@, self.columns@[i].1@))
    }
}

impl Clone for RowData {
    fn clone(&self) -> (r: Self)
        ensures
            r@ == self@,
    {
        let mut columns: Vec<(String, CellValue)> = Vec::new();
        let mut i: usize = 0;
        while i < self.columns.len()
            invariant
                i <= self.columns.len(),
                columns@.len() == i,
                forall|j: int|
                    0 <= j < i ==> columns@[j].0@ == self.columns@[j].0@ && columns@[j].1@
                        == self.columns@[j].1@,
            decreases self.columns.len() - i,
        {
            let name = self.columns[i].0.clone();
            let value = self.columns[i].1.clone();
            columns.push((name, value));
            i = i + 1;
        }
        let r = RowData { columns };
        proof {
            assert(r@ =~= self@);
        }
        r
    }
}

/// One unit of the execution result sequence.
pub enum DbItem {
    /// One result row.
    Row(RowData),
    /// A statement finished without returning rows.
    FinishedQuery,
    /// An enriched, human-readable error attached to the statement that
    /// produced it.
    Error(ErrorChain),
}

/// The mathematical value of a [`DbItem`].
pub ghost enum DbItemView {
    Row(Seq<(Seq<char>, CellView)>),
    FinishedQuery,
    Error(Seq<Seq<char>>),
}

impl View for DbItem {
    type V = DbItemView;

    open spec fn view(&self) -> DbItemView {
        match self {
            DbItem::Row(r) => DbItemView::Row(r@),
            DbItem::FinishedQuery => DbItemView::FinishedQuery,
            DbItem::Error(e) => DbItemView::Error(e@),
        }
    }
}

impl DeepView for DbItem {
    type V = DbItemView;

    open spec fn deep_view(&self) -> DbItemView {
        self.view()
    }
}

/// One backend result unit of a multi-result query, as the driver reports
/// it: a returned row, a non-row completion signal, or a backend error
/// with its native message.
pub enum DbResultUnit {
    Row(RowData),
    Completed,
    Failure(String),
}

/// The mathematical value of a [`DbResultUnit`].
pub ghost enum DbResultUnitView {
    Row(Seq<(Seq<char>, CellView)>),
    Completed,
    Failure(Seq<char>),
}

impl View for DbResultUnit {
    type V = DbResultUnitView;

    open spec fn view(&self) -> DbResultUnitView {
        match self {
            DbResultUnit::Row(r) => DbResultUnitView::Row(r@),
            DbResultUnit::Completed => DbResultUnitView::Completed,
            DbResultUnit::Failure(m) => DbResultUnitView::Failure(m@),
        }
    }
}

/// The headline put on errors the backend reports while running a
/// statement.
pub open spec fn execute_error_headline() -> Seq<char> {
    "Failed to execute SQL statement"@
}

/// The output item that one backend result unit maps to: a row maps to a
/// row item, a completion signal to a finished-query marker, and a backend
/// error to an error item enriched with the offending SQL text.
pub open spec fn mapped_item(sql: Seq<char>, res: DbResultUnitView) -> DbItemView {
    match res {
        DbResultUnitView::Row(r) => DbItemView::Row(r),
        DbResultUnitView::Completed => DbItemView::FinishedQuery,
        DbResultUnitView::Failure(m) => DbItemView::Error(
            enriched_error(execute_error_headline(), sql, m),
        ),
    }
}

/// Translates one backend result unit into exactly one output item.
pub fn parse_single_sql_result(sql: &str, res: DbResultUnit) -> (r: DbItem)
    ensures
        r@ == mapped_item(sql@, res@),
{
    match res {
        DbResultUnit::Row(row) => DbItem::Row(row),
        DbResultUnit::Completed => DbItem::FinishedQuery,
        DbResultUnit::Failure(m) => {
            proof {
                reveal_strlit("Failed to execute SQL statement");
            }
            let chain = crate::error::highlight_sql_error(
                "Failed to execute SQL statement",
                sql,
                m.as_str(),
            );
            DbItem::Error(chain)
        },
    }
}

} // verus!
