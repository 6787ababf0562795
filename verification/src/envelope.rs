//! Result envelopes: column names, a row matrix of generic values, and the
//! included row count, with the per-call-site row caps applied while the
//! native rows are consumed. Hitting a cap truncates the envelope; it is
//! never an error.

use crate::compile::AggregationOperation;
use crate::values::DataValue;
use crate::values::NativeCell;
use crate::values::ValueModel;
use crate::values::map_cell_model;
use crate::values::map_row;
use crate::values::numeric_value;
use vstd::prelude::*;

verus! {

/// Cap on rows returned through the low-latency streaming path.
pub const STREAM_ROW_CAP: usize = 1000;

/// Cap on rows returned through browsing and preview paths.
pub const PREVIEW_ROW_CAP: usize = 10000;

/// An executed query's result: column names, one row of values per
/// included source row, and the number of rows actually included.
#[derive(Debug, Clone, PartialEq, Eq)]
pub struct QueryResult {
    pub columns: Vec<String>,
    pub data: Vec<Vec<DataValue>>,
    pub row_count: usize,
}

impl QueryResult {
    /// A result is well formed when its count matches its rows and every
    /// row is as wide as the column list.
    pub open spec fn well_formed(&self) -> bool {
        &&& self.row_count == self.data@.len()
        &&& forall|i: int|
            0 <= i < self.data@.len() ==> #[trigger] self.data@[i]@.len() == self.columns@.len()
    }

    /// Assemble a result from columns and rows; the row count is the
    /// number of rows given.
    pub fn new(columns: Vec<String>, data: Vec<Vec<DataValue>>) -> (r: Self)
        ensures
            r.columns == columns,
            r.data == data,
            r.row_count == data@.len(),
    {
        let row_count = data.len();
        QueryResult { columns, data, row_count }
    }

    /// The result of a query that produced nothing.
    pub fn empty() -> (r: Self)
        ensures
            r.columns@.len() == 0,
            r.data@.len() == 0,
            r.row_count == 0,
            r.well_formed(),
    {
        QueryResult { columns: Vec::new(), data: Vec::new(), row_count: 0 }
    }

    /// Whether the result holds no rows.
    pub fn is_empty(&self) -> (r: bool)
        ensures
            r == (self.data@.len() == 0),
    {
        self.data.len() == 0
    }
}

/// Build the envelope over `columns` from native rows, consuming at most
/// `cap` rows; reaching the cap truncates the envelope and is not an error.
///
/// Every included row is the value-mapped image of its source row, so row
/// lengths are preserved: when each source row is as wide as the column
/// list, the envelope is well formed.
pub fn build_query_result(columns: Vec<String>, rows: &Vec<Vec<NativeCell>>, cap: usize) -> (r:
    QueryResult)
    ensures
        r.columns == columns,
        r.row_count == r.data@.len(),
        r.row_count <= cap,
        r.data@.len() == if rows@.len() < cap {
            rows@.len() as int
        } else {
            cap as int
        },
        forall|i: int| 0 <= i < r.data@.len() ==> #[trigger] r.data@[i]@.len() == rows@[i]@.len(),
        forall|i: int, j: int|
            0 <= i < r.data@.len() && 0 <= j < rows@[i]@.len() ==> #[trigger] r.data@[i]@[j]@
                == map_cell_model(rows@[i]@[j]@),
        (forall|i: int| 0 <= i < rows@.len() ==> #[trigger] rows@[i]@.len() == columns@.len())
            ==> r.well_formed(),
{
    let mut data: Vec<Vec<DataValue>> = Vec::new();
    let mut i: usize = 0;
    while i < rows.len() && i < cap
        invariant
            i <= rows@.len(),
            i <= cap,
            data@.len() == i,
            forall|k: int| 0 <= k < i ==> #[trigger] data@[k]@.len() == rows@[k]@.len(),
            forall|k: int, j: int|
                0 <= k < i && 0 <= j < rows@[k]@.len() ==> #[trigger] data@[k]@[j]@
                    == map_cell_model(rows@[k]@[j]@),
        decreases rows@.len() - i,
    {
        data.push(map_row(&rows[i]));
        i += 1;
    }
    let row_count = data.len();
    QueryResult { columns, data, row_count }
}

/// Build a preview envelope: the browsing call site's row cap applies.
pub fn build_preview_result(columns: Vec<String>, rows: &Vec<Vec<NativeCell>>) -> (r: QueryResult)
    ensures
        r.columns == columns,
        r.row_count == r.data@.len(),
        r.row_count <= PREVIEW_ROW_CAP,
        r.data@.len() == if rows@.len() < PREVIEW_ROW_CAP {
            rows@.len() as int
        } else {
            PREVIEW_ROW_CAP as int
        },
        forall|i: int| 0 <= i < r.data@.len() ==> #[trigger] r.data@[i]@.len() == rows@[i]@.len(),
        forall|i: int, j: int|
            0 <= i < r.data@.len() && 0 <= j < rows@[i]@.len() ==> #[trigger] r.data@[i]@[j]@
                == map_cell_model(rows@[i]@[j]@),
        (forall|i: int| 0 <= i < rows@.len() ==> #[trigger] rows@[i]@.len() == columns@.len())
            ==> r.well_formed(),
{
    build_query_result(columns, rows, PREVIEW_ROW_CAP)
}

/// Build the streaming path's column-name-keyed rows: each included row
/// pairs every column name with the value mapped from the corresponding
/// cell, and at most the streaming row cap is included.
pub fn build_row_objects(columns: &Vec<String>, rows: &Vec<Vec<NativeCell>>) -> (r: Vec<
    Vec<(String, DataValue)>,
>)
    requires
        forall|i: int| 0 <= i < rows@.len() ==> #[trigger] rows@[i]@.len() == columns@.len(),
    ensures
        r@.len() == if rows@.len() < STREAM_ROW_CAP {
            rows@.len() as int
        } else {
            STREAM_ROW_CAP as int
        },
        forall|i: int| 0 <= i < r@.len() ==> #[trigger] r@[i]@.len() == columns@.len(),
        forall|i: int, j: int|
            0 <= i < r@.len() && 0 <= j < columns@.len() ==> (#[trigger] r@[i]@[j]).0
                == columns@[j] && r@[i]@[j].1@ == map_cell_model(rows@[i]@[j]@),
{
    let mut out: Vec<Vec<(String, DataValue)>> = Vec::new();
    let mut i: usize = 0;
    while i < rows.len() && i < STREAM_ROW_CAP
        invariant
            forall|k: int| 0 <= k < rows@.len() ==> #[trigger] rows@[k]@.len() == columns@.len(),
            i <= rows@.len(),
            i <= STREAM_ROW_CAP,
            out@.len() == i,
            forall|k: int| 0 <= k < i ==> #[trigger] out@[k]@.len() == columns@.len(),
            forall|k: int, j: int|
                0 <= k < i && 0 <= j < columns@.len() ==> (#[trigger] out@[k]@[j]).0
                    == columns@[j] && out@[k]@[j].1@ == map_cell_model(rows@[k]@[j]@),
        decreases rows@.len() - i,
    {
        let row = &rows[i];
        let mut obj: Vec<(String, DataValue)> = Vec::new();
        let mut j: usize = 0;
        while j < columns.len()
            invariant
                i < rows@.len(),
                row@ == rows@[i as int]@,
                rows@[i as int]@.len() == columns@.len(),
                j <= columns@.len(),
                obj@.len() == j,
                forall|t: int|
                    0 <= t < j ==> (#[trigger] obj@[t]).0 == columns@[t] && obj@[t].1@
                        == map_cell_model(rows@[i as int]@[t]@),
            decreases columns@.len() - j,
        {
            let value = crate::values::map_cell(&row[j]);
            obj.push((columns[j].clone(), value));
            j += 1;
        }
        out.push(obj);
        i += 1;
    }
    out
}

/// Whether an introspection row declares its column nullable: the third
/// cell says `YES`, and a missing or non-textual cell counts as nullable.
pub open spec fn describe_nullable_model(row: Seq<DataValue>) -> bool {
    if row.len() < 3 {
        true
    } else {
        match row[2] {
            DataValue::Text(s) => s@ == "YES"@,
            _ => true,
        }
    }
}

/// The column descriptor one introspection row yields: its first two cells
/// are the name and the declared type; a row without two textual cells
/// yields none.
pub open spec fn describe_entry_model(row: Seq<DataValue>) -> Option<crate::model::ColumnInfo> {
    if row.len() >= 2 {
        match (row[0], row[1]) {
            (DataValue::Text(name), DataValue::Text(data_type)) => Some(
                crate::model::ColumnInfo {
                    name,
                    data_type,
                    nullable: describe_nullable_model(row),
                },
            ),
            _ => None,
        }
    } else {
        None
    }
}

/// The descriptors yielded by the first `n` introspection rows, in order.
pub open spec fn describe_columns_model(rows: Seq<Vec<DataValue>>, n: int) -> Seq<
    crate::model::ColumnInfo,
>
    decreases n,
{
    if n <= 0 {
        Seq::empty()
    } else {
        describe_columns_model(rows, n - 1) + (match describe_entry_model(rows[n - 1]@) {
            Some(c) => seq![c],
            None => Seq::empty(),
        })
    }
}

/// Read a table's column descriptors out of the mapped rows of its
/// introspection statement.
pub fn column_info_from_describe(rows: &Vec<Vec<DataValue>>) -> (r: Vec<crate::model::ColumnInfo>)
    ensures
        r@ == describe_columns_model(rows@, rows@.len() as int),
{
    let mut out: Vec<crate::model::ColumnInfo> = Vec::new();
    let mut i: usize = 0;
    while i < rows.len()
        invariant
            i <= rows@.len(),
            out@ == describe_columns_model(rows@, i as int),
        decreases rows@.len() - i,
    {
        let row = &rows[i];
        if row.len() >= 2 {
            match (&row[0], &row[1]) {
                (DataValue::Text(name), DataValue::Text(data_type)) => {
                    let nullable: bool = if row.len() >= 3 {
                        match &row[2] {
                            DataValue::Text(s) => crate::text::str_eq(s.as_str(), "YES"),
                            _ => true,
                        }
                    } else {
                        true
                    };
                    let entry = crate::model::ColumnInfo {
                        name: name.clone(),
                        data_type: data_type.clone(),
                        nullable,
                    };
                    proof {
                        assert(describe_entry_model(rows@[i as int]@) == Some(entry));
                    }
                    out.push(entry);
                },
                _ => {},
            }
        }
        i += 1;
    }
    out
}

/// Summary line of one aggregation operation in a response; the result
/// value is not filled in by the compiler and stays null.
#[derive(Debug, Clone, PartialEq, Eq)]
pub struct AggregationSummary {
    pub field: String,
    pub operation: String,
    pub result: DataValue,
}

/// An aggregation response: the executed result plus one summary line per
/// requested operation.
#[derive(Debug, Clone, PartialEq, Eq)]
pub struct AggregationResult {
    pub columns: Vec<String>,
    pub data: Vec<Vec<DataValue>>,
    pub row_count: usize,
    pub aggregations: Vec<AggregationSummary>,
}

/// One summary line per operation, in request order, each carrying a null
/// result value.
pub fn summarize_operations(ops: &Vec<AggregationOperation>) -> (r: Vec<AggregationSummary>)
    ensures
        r@.len() == ops@.len(),
        forall|i: int|
            0 <= i < ops@.len() ==> (#[trigger] r@[i]).field == ops@[i].field && r@[i].operation
                == ops@[i].operation && r@[i].result is Null,
{
    let mut out: Vec<AggregationSummary> = Vec::new();
    let mut i: usize = 0;
    while i < ops.len()
        invariant
            i <= ops@.len(),
            out@.len() == i,
            forall|k: int|
                0 <= k < i ==> (#[trigger] out@[k]).field == ops@[k].field && out@[k].operation
                    == ops@[k].operation && out@[k].result is Null,
        decreases ops@.len() - i,
    {
        out.push(
            AggregationSummary {
                field: ops[i].field.clone(),
                operation: ops[i].operation.clone(),
                result: DataValue::Null,
            },
        );
        i += 1;
    }
    out
}

/// Wrap an executed result as an aggregation response, one summary line
/// per requested operation.
pub fn build_aggregation_result(result: QueryResult, ops: &Vec<AggregationOperation>) -> (r:
    AggregationResult)
    ensures
        r.columns == result.columns,
        r.data == result.data,
        r.row_count == result.row_count,
        r.aggregations@.len() == ops@.len(),
        forall|i: int|
            0 <= i < ops@.len() ==> (#[trigger] r.aggregations@[i]).field == ops@[i].field
                && r.aggregations@[i].operation == ops@[i].operation
                && r.aggregations@[i].result is Null,
{
    let aggregations = summarize_operations(ops);
    AggregationResult {
        columns: result.columns,
        data: result.data,
        row_count: result.row_count,
        aggregations,
    }
}

/// The statistic pairs taken from the first `n` columns of a result's
/// first row: each column name paired with its value, numeric values only.
pub open spec fn stat_pairs_model(cols: Seq<String>, row: Seq<DataValue>, n: int) -> Seq<
    (String, DataValue),
>
    decreases n,
{
    if n <= 0 {
        Seq::empty()
    } else {
        stat_pairs_model(cols, row, n - 1) + (if n - 1 < row.len() && numeric_value(
            row[n - 1]@,
        ) {
            seq![(cols[n - 1], row[n - 1])]
        } else {
            Seq::empty()
        })
    }
}

/// Pair each column of a statistics result with the numeric value in the
/// first row; rows beyond the first are ignored, non-numeric cells are
/// skipped, and an empty result yields no pairs.
pub fn statistics_from_result(result: &QueryResult) -> (r: Vec<(String, DataValue)>)
    ensures
        result.data@.len() == 0 ==> r@.len() == 0,
        result.data@.len() > 0 ==> r@ == stat_pairs_model(
            result.columns@,
            result.data@[0]@,
            result.columns@.len() as int,
        ),
{
    let mut out: Vec<(String, DataValue)> = Vec::new();
    if result.data.len() == 0 {
        return out;
    }
    let row = &result.data[0];
    let mut i: usize = 0;
    while i < result.columns.len()
        invariant
            result.data@.len() > 0,
            row == result.data@[0],
            i <= result.columns@.len(),
            out@ == stat_pairs_model(result.columns@, result.data@[0]@, i as int),
        decreases result.columns@.len() - i,
    {
        if i < row.len() {
            let picked: Option<DataValue> = match &row[i] {
                DataValue::Integer(n) => Some(DataValue::Integer(*n)),
                DataValue::Float(b) => Some(DataValue::Float(*b)),
                _ => None,
            };
            match picked {
                Some(v) => {
                    proof {
                        assert(v == result.data@[0]@[i as int]);
                    }
                    out.push((result.columns[i].clone(), v));
                },
                None => {},
            }
        }
        i += 1;
    }
    out
}

/// The coefficient cell of one pairwise-correlation result: the numeric
/// value in the first cell of the first row, or the double zero when the
/// result is empty or not numeric.
pub fn correlation_coefficient(result: &QueryResult) -> (r: DataValue)
    ensures
        r@ == (if result.data@.len() > 0 && result.data@[0]@.len() > 0 && numeric_value(
            result.data@[0]@[0]@,
        ) {
            result.data@[0]@[0]@
        } else {
            ValueModel::Float(0)
        }),
{
    if result.data.len() > 0 {
        let row = &result.data[0];
        if row.len() > 0 {
            match &row[0] {
                DataValue::Integer(n) => {
                    return DataValue::Integer(*n);
                },
                DataValue::Float(b) => {
                    return DataValue::Float(*b);
                },
                _ => {},
            }
        }
    }
    DataValue::Float(0)
}

} // verus!
