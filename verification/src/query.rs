//! Assembly of a query's result from the rows that were fetched.

use crate::convert::{generic_views, row_to_values, row_values};
use crate::driver::Cell;
use crate::value::{GenericValue, GenericView};
use vstd::prelude::*;

verus! {

/// A column as the driver reports it. Names need not be unique.
#[derive(Debug, Clone, PartialEq)]
pub struct ColumnMetadata {
    pub name: String,
    pub data_type: String,
}

/// The mathematical model of a [`ColumnMetadata`].
pub struct ColumnView {
    pub name: Seq<char>,
    pub data_type: Seq<char>,
}

impl View for ColumnMetadata {
    type V = ColumnView;

    open spec fn view(&self) -> ColumnView {
        ColumnView { name: self.name@, data_type: self.data_type@ }
    }
}

/// A materialized result set.
#[derive(Debug, Clone, PartialEq)]
pub struct QueryResult {
    pub columns: Vec<ColumnMetadata>,
    pub rows: Vec<Vec<GenericValue>>,
    pub row_count: usize,
    pub execution_time_ms: u64,
}

/// The mathematical model of a [`QueryResult`].
pub struct QueryResultView {
    pub columns: Seq<ColumnView>,
    pub rows: Seq<Seq<GenericView>>,
    pub row_count: nat,
    pub execution_time_ms: nat,
}

impl QueryResultView {
    /// The count is the number of rows, every row has one value per column,
    /// and a result without rows has no columns.
    pub open spec fn wf(self) -> bool {
        &&& self.row_count == self.rows.len()
        &&& forall|i: int| 0 <= i < self.rows.len() ==> (#[trigger] self.rows[i]).len() == self.columns.len()
        &&& self.rows.len() == 0 ==> self.columns.len() == 0
    }
}

impl View for QueryResult {
    type V = QueryResultView;

    open spec fn view(&self) -> QueryResultView {
        QueryResultView {
            columns: Seq::new(self.columns.len() as nat, |i: int| self.columns[i]@),
            rows: Seq::new(self.rows.len() as nat, |i: int| generic_views(self.rows[i]@)),
            row_count: self.row_count as nat,
            execution_time_ms: self.execution_time_ms as nat,
        }
    }
}

/// Why a query gave no result.
#[derive(Debug, Clone, PartialEq)]
pub enum AppError {
    /// No connection is established.
    NotConnected,
    /// The driver or the server refused or failed the query; the message is
    /// theirs.
    Database(String),
}

/// What the driver returned for a query: the complete set of rows and the
/// wall-clock time that fetching them took, in whole milliseconds.
#[derive(Debug, Clone, PartialEq)]
pub struct Fetched {
    pub rows: Vec<Vec<Cell>>,
    pub elapsed_millis: u128,
}

/// The columns that a row describes: each cell's name and type tag, in order.
pub open spec fn columns_of_row(row: Seq<Cell>) -> Seq<ColumnView> {
    Seq::new(row.len(), |i: int| ColumnView { name: row[i].name@, data_type: row[i].data_type@ })
}

/// The columns of a result set: those of its first row, none where it has no
/// rows.
pub open spec fn columns_of(rows: Seq<Vec<Cell>>) -> Seq<ColumnView> {
    if rows.len() == 0 {
        Seq::empty()
    } else {
        columns_of_row(rows[0]@)
    }
}

/// The result for a set of fetched rows: the columns of the first row, every
/// row converted in order, and the number of rows.
pub open spec fn materialized(rows: Seq<Vec<Cell>>, execution_time_ms: u64) -> QueryResultView {
    QueryResultView {
        columns: columns_of(rows),
        rows: Seq::new(rows.len(), |i: int| row_values(rows[i]@)),
        row_count: rows.len(),
        execution_time_ms: execution_time_ms as nat,
    }
}

/// Every row has as many cells as the first.
pub open spec fn uniform(rows: Seq<Vec<Cell>>) -> bool {
    forall|i: int| 0 <= i < rows.len() ==> (#[trigger] rows[i]).len() == rows[0].len()
}

/// The low 64 bits of a millisecond count.
pub open spec fn low_64_bits(millis: u128) -> u64 {
    (millis % 0x1_0000_0000_0000_0000) as u64
}

/// Narrows an elapsed time in milliseconds to 64 bits, keeping the low bits.
pub fn execution_millis(elapsed_millis: u128) -> (ms: u64)
    ensures
        ms == low_64_bits(elapsed_millis),
{
    let low: u128 = elapsed_millis % 0x1_0000_0000_0000_0000;
    low as u64
}

/// Reads the column metadata off a row.
pub fn column_metadata(row: &Vec<Cell>) -> (columns: Vec<ColumnMetadata>)
    ensures
        columns.len() == row.len(),
        Seq::new(columns.len() as nat, |i: int| columns[i]@) == columns_of_row(row@),
{
    let mut columns: Vec<ColumnMetadata> = Vec::new();
    let mut i: usize = 0;
    while i < row.len()
        invariant
            i <= row.len(),
            columns.len() == i,
            forall|j: int|
                0 <= j < i ==> (#[trigger] columns[j])@ == (ColumnView {
                    name: row[j].name@,
                    data_type: row[j].data_type@,
                }),
        decreases row.len() - i,
    {
        let cell = &row[i];
        columns.push(ColumnMetadata { name: cell.name.clone(), data_type: cell.data_type.clone() });
        i += 1;
    }
    assert(Seq::new(columns.len() as nat, |i: int| columns[i]@) =~= columns_of_row(row@));
    columns
}

/// Builds the result for a complete set of fetched rows.
///
/// Columns come from the first row only. Rows and cells keep the driver's
/// order; a cell that cannot be converted becomes null.
pub fn materialize(rows: &Vec<Vec<Cell>>, execution_time_ms: u64) -> (result: QueryResult)
    ensures
        result@ == materialized(rows@, execution_time_ms),
        uniform(rows@) ==> result@.wf(),
        forall|i: int, j: int|
            0 <= i < result.rows.len() && 0 <= j < result.rows[i].len() ==> (
            #[trigger] result.rows[i][j]).wf(),
{
    let columns = if rows.len() == 0 {
        Vec::new()
    } else {
        column_metadata(&rows[0])
    };
    let mut converted: Vec<Vec<GenericValue>> = Vec::new();
    let mut i: usize = 0;
    while i < rows.len()
        invariant
            i <= rows.len(),
            converted.len() == i,
            forall|k: int|
                0 <= k < i ==> generic_views((#[trigger] converted[k])@) == row_values(rows[k]@),
            forall|k: int, j: int|
                0 <= k < i && 0 <= j < converted[k].len() ==> (#[trigger] converted[k][j]).wf(),
        decreases rows.len() - i,
    {
        let values = row_to_values(&rows[i]);
        converted.push(values);
        i += 1;
    }
    let result = QueryResult {
        columns,
        rows: converted,
        row_count: rows.len(),
        execution_time_ms,
    };
    proof {
        assert(result@.columns =~= columns_of(rows@));
        assert(result@.rows =~= materialized(rows@, execution_time_ms).rows);
        if uniform(rows@) {
            lemma_uniform_rows_fit_columns(rows@, execution_time_ms);
        }
    }
    result
}

/// Turns the outcome of an attempt to run a query into the caller's result.
///
/// `attempt` is `None` where no connection is established, in which case no
/// query was sent; otherwise it holds what the driver returned. A driver
/// error aborts the call with the driver's message, and nothing of a partial
/// result is returned.
pub fn execute_query(attempt: Option<Result<Fetched, String>>) -> (outcome: Result<
    QueryResult,
    AppError,
>)
    ensures
        match attempt {
            None => outcome == Err::<QueryResult, AppError>(AppError::NotConnected),
            Some(Err(message)) => outcome == Err::<QueryResult, AppError>(
                AppError::Database(message),
            ),
            Some(Ok(fetched)) => {
                &&& outcome is Ok
                &&& outcome->Ok_0@ == materialized(
                    fetched.rows@,
                    low_64_bits(fetched.elapsed_millis),
                )
                &&& uniform(fetched.rows@) ==> outcome->Ok_0@.wf()
            },
        },
{
    match attempt {
        None => Err(AppError::NotConnected),
        Some(Err(message)) => Err(AppError::Database(message)),
        Some(Ok(fetched)) => Ok(
            materialize(&fetched.rows, execution_millis(fetched.elapsed_millis)),
        ),
    }
}

/// In the result for rows that all have as many cells as the first, every
/// row has one value per column, the count is the number of rows, and there
/// are no columns without rows.
pub proof fn lemma_uniform_rows_fit_columns(rows: Seq<Vec<Cell>>, execution_time_ms: u64)
    requires
        uniform(rows),
    ensures
        materialized(rows, execution_time_ms).wf(),
{
    let result = materialized(rows, execution_time_ms);
    assert forall|i: int| 0 <= i < result.rows.len() implies (#[trigger] result.rows[i]).len()
        == result.columns.len() by {
        assert(rows[i].len() == rows[0].len());
    }
}

/// The columns and rows of a result depend on the fetched rows alone: the
/// same rows give the same columns and the same rows, whatever the elapsed
/// times.
pub proof fn lemma_same_rows_same_result(rows: Seq<Vec<Cell>>, first_ms: u64, second_ms: u64)
    ensures
        materialized(rows, first_ms).columns == materialized(rows, second_ms).columns,
        materialized(rows, first_ms).rows == materialized(rows, second_ms).rows,
        materialized(rows, first_ms).row_count == materialized(rows, second_ms).row_count,
{
}

/// A result set without rows gives no columns, no rows and a count of zero.
pub proof fn lemma_no_rows_no_columns(rows: Seq<Vec<Cell>>, execution_time_ms: u64)
    requires
        rows.len() == 0,
    ensures
        materialized(rows, execution_time_ms).columns == Seq::<ColumnView>::empty(),
        materialized(rows, execution_time_ms).rows =~= Seq::<Seq<GenericView>>::empty(),
        materialized(rows, execution_time_ms).row_count == 0,
{
}

} // verus!
