//! Query compilers: deterministic generation of SQL text from structured
//! analysis requests. Identifiers and filter values are interpolated
//! verbatim, exactly as the callers supply them; the compiled text is
//! handed unmodified to the execution layer.

use crate::error::CoreError;
use crate::table_name_model;
use crate::table_name_for;
use crate::text::dec_model;
use crate::text::decimal_of;
use crate::text::join_model;
use crate::text::join_with;
use crate::text::seq_views;
use crate::text::str_eq;
use vstd::prelude::*;

verus! {

/// One requested aggregate: a field, an operation name, and an optional
/// output alias.
#[derive(Debug, Clone, PartialEq, Eq)]
pub struct AggregationOperation {
    pub field: String,
    pub operation: String,
    pub alias: Option<String>,
}

/// The effective output alias of an operation: the explicit alias when
/// given, else `{operation}_{field}`.
pub open spec fn alias_model(op: AggregationOperation) -> Seq<char> {
    match op.alias {
        Some(a) => a@,
        None => op.operation@ + "_"@ + op.field@,
    }
}

impl AggregationOperation {
    pub fn new(field: String, operation: String) -> (r: Self)
        ensures
            r.field == field,
            r.operation == operation,
            r.alias is None,
    {
        AggregationOperation { field, operation, alias: None }
    }

    pub fn with_alias(self, alias: String) -> (r: Self)
        ensures
            r.field == self.field,
            r.operation == self.operation,
            r.alias == Some(alias),
    {
        AggregationOperation { alias: Some(alias), ..self }
    }

    /// The alias under which this operation's result is returned.
    pub fn get_alias(&self) -> (r: String)
        ensures
            r@ == alias_model(*self),
    {
        match &self.alias {
            Some(a) => a.clone(),
            None => self.operation.clone().concat("_").concat(self.field.as_str()),
        }
    }
}

/// A filter value: textual values become substring matches, numeric values
/// equality comparisons. A numeric value is carried as its decimal literal
/// text, ready for interpolation.
#[derive(Debug, Clone, PartialEq, Eq)]
pub enum FilterValue {
    Text(String),
    Number(String),
}

/// One filter condition on a field.
#[derive(Debug, Clone, PartialEq, Eq)]
pub struct QueryFilter {
    pub field: String,
    pub value: FilterValue,
}

/// A structured aggregation request against one data source.
#[derive(Debug, Clone, PartialEq, Eq)]
pub struct AggregationRequest {
    pub data_source_id: String,
    pub operations: Vec<AggregationOperation>,
    pub group_by: Option<Vec<String>>,
    pub filters: Option<Vec<QueryFilter>>,
    pub limit: Option<usize>,
}

/// The aggregation operation names the compiler understands.
pub open spec fn supported_aggregation(op: Seq<char>) -> bool {
    ||| op == "sum"@
    ||| op == "avg"@
    ||| op == "count"@
    ||| op == "min"@
    ||| op == "max"@
    ||| op == "distinct_count"@
}

/// The SQL aggregate expression for a supported operation over a field.
pub open spec fn agg_expr_model(op: Seq<char>, field: Seq<char>) -> Seq<char> {
    if op == "sum"@ {
        "SUM("@ + field + ")"@
    } else if op == "avg"@ {
        "AVG("@ + field + ")"@
    } else if op == "count"@ {
        "COUNT("@ + field + ")"@
    } else if op == "min"@ {
        "MIN("@ + field + ")"@
    } else if op == "max"@ {
        "MAX("@ + field + ")"@
    } else {
        "COUNT(DISTINCT "@ + field + ")"@
    }
}

/// One select-list item: the aggregate expression aliased to its output name.
pub open spec fn select_item_model(op: AggregationOperation) -> Seq<char> {
    agg_expr_model(op.operation@, op.field@) + " AS "@ + alias_model(op)
}

/// Select-list items for all operations, in request order.
pub open spec fn select_items_model(ops: Seq<AggregationOperation>) -> Seq<Seq<char>> {
    Seq::new(ops.len(), |i: int| select_item_model(ops[i]))
}

/// The group-by field names of a request, in request order.
pub open spec fn group_fields_model(req: AggregationRequest) -> Seq<Seq<char>> {
    match req.group_by {
        Some(g) => seq_views(g@),
        None => Seq::empty(),
    }
}

/// The full select list: group-by fields prepended one by one (so they end
/// up in reverse request order), then the aggregate items.
pub open spec fn select_parts_model(req: AggregationRequest) -> Seq<Seq<char>> {
    let g = group_fields_model(req);
    Seq::new(g.len(), |i: int| g[g.len() - 1 - i]) + select_items_model(req.operations@)
}

/// The SQL condition for one filter: substring match for text, equality
/// for numbers.
pub open spec fn condition_model(f: QueryFilter) -> Seq<char> {
    match f.value {
        FilterValue::Text(v) => f.field@ + " LIKE '%"@ + v@ + "%'"@,
        FilterValue::Number(n) => f.field@ + " = "@ + n@,
    }
}

/// Conditions for all filters, in order.
pub open spec fn conditions_model(fs: Seq<QueryFilter>) -> Seq<Seq<char>> {
    Seq::new(fs.len(), |i: int| condition_model(fs[i]))
}

/// The `WHERE` clause of an aggregation query, empty when there are no
/// filters.
pub open spec fn where_clause_model(req: AggregationRequest) -> Seq<char> {
    match req.filters {
        Some(fs) => if fs@.len() == 0 {
            Seq::empty()
        } else {
            " WHERE "@ + join_model(conditions_model(fs@), " AND "@)
        },
        None => Seq::empty(),
    }
}

/// The `GROUP BY` clause, empty when no group-by fields were given.
pub open spec fn group_clause_model(req: AggregationRequest) -> Seq<char> {
    match req.group_by {
        Some(g) => if g@.len() == 0 {
            Seq::empty()
        } else {
            " GROUP BY "@ + join_model(seq_views(g@), ", "@)
        },
        None => Seq::empty(),
    }
}

/// The `LIMIT` clause, empty when no limit was requested.
pub open spec fn limit_clause_model(req: AggregationRequest) -> Seq<char> {
    match req.limit {
        Some(n) => " LIMIT "@ + dec_model(n as nat),
        None => Seq::empty(),
    }
}

/// The complete compiled aggregation statement.
pub open spec fn aggregation_query_model(req: AggregationRequest) -> Seq<char> {
    "SELECT "@ + join_model(select_parts_model(req), ", "@) + " FROM "@ + table_name_model(
        req.data_source_id@,
    ) + where_clause_model(req) + group_clause_model(req) + limit_clause_model(req)
}

/// The message of the validation error for an unsupported operation name.
pub open spec fn unsupported_aggregation_message(op: Seq<char>) -> Seq<char> {
    "Unsupported aggregation operation: "@ + op
}

/// Render the SQL condition of every filter, in order.
fn filter_conditions(fs: &Vec<QueryFilter>) -> (r: Vec<String>)
    ensures
        seq_views(r@) == conditions_model(fs@),
{
    let mut conds: Vec<String> = Vec::new();
    let mut c: usize = 0;
    while c < fs.len()
        invariant
            c <= fs@.len(),
            conds@.len() == c,
            forall|j: int| 0 <= j < c ==> #[trigger] conds@[j]@ == condition_model(fs@[j]),
        decreases fs@.len() - c,
    {
        let f = &fs[c];
        let cond = match &f.value {
            FilterValue::Text(v) => {
                f.field.clone().concat(" LIKE '%").concat(v.as_str()).concat("%'")
            },
            FilterValue::Number(n) => f.field.clone().concat(" = ").concat(n.as_str()),
        };
        conds.push(cond);
        c += 1;
    }
    proof {
        assert(seq_views(conds@) =~= conditions_model(fs@));
    }
    conds
}

/// The SQL aggregate expression for `operation` over `field`, or `None`
/// when the operation name is not supported.
fn aggregation_expr(operation: &str, field: &str) -> (r: Option<String>)
    ensures
        r is Some <==> supported_aggregation(operation@),
        r matches Some(s) ==> s@ == agg_expr_model(operation@, field@),
{
    if str_eq(operation, "sum") {
        Some(String::from_str("SUM(").concat(field).concat(")"))
    } else if str_eq(operation, "avg") {
        Some(String::from_str("AVG(").concat(field).concat(")"))
    } else if str_eq(operation, "count") {
        Some(String::from_str("COUNT(").concat(field).concat(")"))
    } else if str_eq(operation, "min") {
        Some(String::from_str("MIN(").concat(field).concat(")"))
    } else if str_eq(operation, "max") {
        Some(String::from_str("MAX(").concat(field).concat(")"))
    } else if str_eq(operation, "distinct_count") {
        Some(String::from_str("COUNT(DISTINCT ").concat(field).concat(")"))
    } else {
        None
    }
}

/// Compile an aggregation request into one SQL statement.
///
/// Succeeds exactly when every requested operation name is supported; the
/// compiled text is pinned by `aggregation_query_model`. On the first
/// unsupported operation a validation error naming it is returned.
pub fn compile_aggregation(req: &AggregationRequest) -> (r: Result<String, CoreError>)
    ensures
        r is Ok <==> (forall|k: int|
            0 <= k < req.operations@.len() ==> supported_aggregation(
                #[trigger] req.operations@[k].operation@,
            )),
        r matches Ok(s) ==> s@ == aggregation_query_model(*req),
        r matches Err(e) ==> (e matches CoreError::Validation(m) && (exists|k: int|
            0 <= k < req.operations@.len() && !supported_aggregation(
                #[trigger] req.operations@[k].operation@,
            ) && (forall|j: int|
                0 <= j < k ==> supported_aggregation(#[trigger] req.operations@[j].operation@))
                && m@ == unsupported_aggregation_message(req.operations@[k].operation@))),
{
    let mut items: Vec<String> = Vec::new();
    let mut i: usize = 0;
    while i < req.operations.len()
        invariant
            i <= req.operations@.len(),
            items@.len() == i,
            forall|j: int|
                0 <= j < i ==> supported_aggregation(#[trigger] req.operations@[j].operation@),
            forall|j: int|
                0 <= j < i ==> #[trigger] items@[j]@ == select_item_model(req.operations@[j]),
        decreases req.operations@.len() - i,
    {
        let op = &req.operations[i];
        match aggregation_expr(op.operation.as_str(), op.field.as_str()) {
            Some(expr) => {
                let alias = op.get_alias();
                items.push(expr.concat(" AS ").concat(alias.as_str()));
            },
            None => {
                let msg = String::from_str("Unsupported aggregation operation: ").concat(
                    op.operation.as_str(),
                );
                proof {
                    assert(!supported_aggregation(req.operations@[i as int].operation@));
                    assert(msg@ == unsupported_aggregation_message(
                        req.operations@[i as int].operation@,
                    ));
                }
                return Err(CoreError::Validation(msg));
            },
        }
        i += 1;
    }
    let mut parts: Vec<String> = Vec::new();
    match &req.group_by {
        Some(g) => {
            let mut t: usize = 0;
            while t < g.len()
                invariant
                    t <= g@.len(),
                    parts@.len() == t,
                    forall|j: int| 0 <= j < t ==> #[trigger] parts@[j]@ == g@[g@.len() - 1 - j]@,
                decreases g@.len() - t,
            {
                parts.push(g[g.len() - 1 - t].clone());
                t += 1;
            }
        },
        None => {},
    }
    let ghost n_group: int = group_fields_model(*req).len() as int;
    proof {
        assert(forall|j: int|
            0 <= j < n_group ==> #[trigger] parts@[j]@ == group_fields_model(*req)[n_group - 1
                - j]);
    }
    let mut u: usize = 0;
    while u < items.len()
        invariant
            u <= items@.len(),
            parts@.len() == n_group + u,
            n_group == group_fields_model(*req).len(),
            forall|j: int|
                0 <= j < n_group ==> #[trigger] parts@[j]@ == group_fields_model(*req)[n_group - 1
                    - j],
            forall|j: int|
                n_group <= j < n_group + u ==> #[trigger] parts@[j]@ == items@[j - n_group]@,
            items@.len() == req.operations@.len(),
            forall|j: int|
                0 <= j < items@.len() ==> #[trigger] items@[j]@ == select_item_model(
                    req.operations@[j],
                ),
        decreases items@.len() - u,
    {
        parts.push(items[u].clone());
        u += 1;
    }
    proof {
        assert(seq_views(parts@) =~= select_parts_model(*req));
    }
    let select_list = join_with(&parts, ", ");
    let table = table_name_for(req.data_source_id.as_str());
    let mut sql = String::from_str("SELECT ").concat(select_list.as_str()).concat(
        " FROM ",
    ).concat(table.as_str());
    match &req.filters {
        Some(fs) => {
            if fs.len() > 0 {
                let conds = filter_conditions(fs);
                sql.append(" WHERE ");
                let joined = join_with(&conds, " AND ");
                sql.append(joined.as_str());
            }
        },
        None => {},
    }
    match &req.group_by {
        Some(g) => {
            if g.len() > 0 {
                sql.append(" GROUP BY ");
                let joined = join_with(g, ", ");
                sql.append(joined.as_str());
            }
        },
        None => {},
    }
    match req.limit {
        Some(n) => {
            sql.append(" LIMIT ");
            let rendered = decimal_of(n);
            sql.append(rendered.as_str());
        },
        None => {},
    }
    proof {
        assert(sql@ =~= aggregation_query_model(*req));
    }
    Ok(sql)
}

/// The descriptive-statistics statement over one column: count, mean,
/// extremes, standard deviation, median and quartiles of the non-null
/// values, expected to return exactly one row.
pub open spec fn statistics_query_model(table: Seq<char>, column: Seq<char>) -> Seq<char> {
    "SELECT COUNT("@ + column + ") as count, AVG("@ + column + ") as mean, MIN("@ + column
        + ") as min, MAX("@ + column + ") as max, STDDEV("@ + column
        + ") as std_dev, PERCENTILE_CONT(0.5) WITHIN GROUP (ORDER BY "@ + column
        + ") as median, PERCENTILE_CONT(0.25) WITHIN GROUP (ORDER BY "@ + column
        + ") as q1, PERCENTILE_CONT(0.75) WITHIN GROUP (ORDER BY "@ + column + ") as q3 FROM "@
        + table + " WHERE "@ + column + " IS NOT NULL"@
}

/// Compile the descriptive-statistics statement for `column` of `table`.
pub fn statistics_query(table: &str, column: &str) -> (r: String)
    ensures
        r@ == statistics_query_model(table@, column@),
{
    let r = String::from_str("SELECT COUNT(").concat(column).concat(") as count, AVG(").concat(
        column,
    ).concat(") as mean, MIN(").concat(column).concat(") as min, MAX(").concat(column).concat(
        ") as max, STDDEV(",
    ).concat(column).concat(") as std_dev, PERCENTILE_CONT(0.5) WITHIN GROUP (ORDER BY ").concat(
        column,
    ).concat(") as median, PERCENTILE_CONT(0.25) WITHIN GROUP (ORDER BY ").concat(column).concat(
        ") as q1, PERCENTILE_CONT(0.75) WITHIN GROUP (ORDER BY ",
    ).concat(column).concat(") as q3 FROM ").concat(table).concat(" WHERE ").concat(column).concat(
        " IS NOT NULL",
    );
    proof {
        assert(r@ =~= statistics_query_model(table@, column@));
    }
    r
}

/// The truncation intervals the time-series compiler understands.
pub open spec fn supported_interval(interval: Seq<char>) -> bool {
    ||| interval == "hour"@
    ||| interval == "day"@
    ||| interval == "week"@
    ||| interval == "month"@
}

/// The aggregation names the time-series compiler understands; unlike plain
/// aggregation requests there is no distinct count here.
pub open spec fn supported_series_aggregation(agg: Seq<char>) -> bool {
    ||| agg == "sum"@
    ||| agg == "avg"@
    ||| agg == "count"@
    ||| agg == "min"@
    ||| agg == "max"@
}

/// Truncation of the timestamp column to the requested interval.
pub open spec fn trunc_expr_model(interval: Seq<char>, time_column: Seq<char>) -> Seq<char> {
    "date_trunc('"@ + interval + "', "@ + time_column + ")"@
}

/// The aggregate expression of the value column; the supported names map
/// to the same SQL functions as in plain aggregation requests.
pub open spec fn series_agg_expr_model(agg: Seq<char>, value_column: Seq<char>) -> Seq<char> {
    agg_expr_model(agg, value_column)
}

/// The complete time-series statement: truncate, aggregate, group and
/// order by the truncated period ascending, nulls filtered out.
pub open spec fn time_series_query_model(
    table: Seq<char>,
    time_column: Seq<char>,
    value_column: Seq<char>,
    interval: Seq<char>,
    agg: Seq<char>,
) -> Seq<char> {
    "SELECT "@ + trunc_expr_model(interval, time_column) + " as time_period, "@
        + series_agg_expr_model(agg, value_column) + " as value FROM "@ + table + " WHERE "@
        + time_column + " IS NOT NULL AND "@ + value_column + " IS NOT NULL GROUP BY "@
        + trunc_expr_model(interval, time_column) + " ORDER BY time_period"@
}

/// Compile a time-series aggregation statement.
///
/// Succeeds exactly when both the interval and the aggregation name are
/// supported; an unknown interval is reported first, then an unknown
/// aggregation, each in a validation error naming the offending value.
pub fn compile_time_series(
    table: &str,
    time_column: &str,
    value_column: &str,
    interval: &str,
    aggregation: &str,
) -> (r: Result<String, CoreError>)
    ensures
        r is Ok <==> supported_interval(interval@) && supported_series_aggregation(aggregation@),
        r matches Ok(s) ==> s@ == time_series_query_model(
            table@,
            time_column@,
            value_column@,
            interval@,
            aggregation@,
        ),
        r matches Err(e) ==> (e matches CoreError::Validation(m) && m@ == (
        if !supported_interval(interval@) {
            "Invalid interval: "@ + interval@
        } else {
            "Invalid aggregation: "@ + aggregation@
        })),
{
    proof {
        reveal_strlit("distinct_count");
        reveal_strlit("sum");
        reveal_strlit("avg");
        reveal_strlit("count");
        reveal_strlit("min");
        reveal_strlit("max");
    }
    let interval_ok = str_eq(interval, "hour") || str_eq(interval, "day") || str_eq(
        interval,
        "week",
    ) || str_eq(interval, "month");
    if !interval_ok {
        return Err(
            CoreError::Validation(String::from_str("Invalid interval: ").concat(interval)),
        );
    }
    let agg_expr = if str_eq(aggregation, "distinct_count") {
        None
    } else {
        aggregation_expr(aggregation, value_column)
    };
    match agg_expr {
        Some(agg) => {
            let trunc = String::from_str("date_trunc('").concat(interval).concat("', ").concat(
                time_column,
            ).concat(")");
            let r = String::from_str("SELECT ").concat(trunc.as_str()).concat(
                " as time_period, ",
            ).concat(agg.as_str()).concat(" as value FROM ").concat(table).concat(
                " WHERE ",
            ).concat(time_column).concat(" IS NOT NULL AND ").concat(value_column).concat(
                " IS NOT NULL GROUP BY ",
            ).concat(trunc.as_str()).concat(" ORDER BY time_period");
            proof {
                assert(r@ =~= time_series_query_model(
                    table@,
                    time_column@,
                    value_column@,
                    interval@,
                    aggregation@,
                ));
            }
            Ok(r)
        },
        None => Err(
            CoreError::Validation(String::from_str("Invalid aggregation: ").concat(aggregation)),
        ),
    }
}

/// The outlier-detection methods the compiler understands.
pub open spec fn supported_outlier_method(method: Seq<char>) -> bool {
    method == "iqr"@ || method == "zscore"@
}

/// The interquartile-range statement: quartiles of the non-null values,
/// fences at 1.5 IQR, and every row outside the fences.
pub open spec fn iqr_query_model(table: Seq<char>, column: Seq<char>) -> Seq<char> {
    "WITH stats AS (SELECT PERCENTILE_CONT(0.25) WITHIN GROUP (ORDER BY "@ + column
        + ") as q1, PERCENTILE_CONT(0.75) WITHIN GROUP (ORDER BY "@ + column + ") as q3 FROM "@
        + table + " WHERE "@ + column
        + " IS NOT NULL), outlier_bounds AS (SELECT q1 - 1.5 * (q3 - q1) as lower_bound, q3 + 1.5 * (q3 - q1) as upper_bound FROM stats) SELECT * FROM "@
        + table + " CROSS JOIN outlier_bounds WHERE "@ + column + " < lower_bound OR "@ + column
        + " > upper_bound"@
}

/// The z-score threshold text: the caller's rendering, or `3` by default.
pub open spec fn threshold_model(threshold: Option<String>) -> Seq<char> {
    match threshold {
        Some(t) => t@,
        None => "3"@,
    }
}

/// The z-score statement: mean and standard deviation of the non-null
/// values, and every row whose absolute z-score exceeds the threshold,
/// with the z-score included per row.
pub open spec fn zscore_query_model(
    table: Seq<char>,
    column: Seq<char>,
    threshold: Seq<char>,
) -> Seq<char> {
    "WITH stats AS (SELECT AVG("@ + column + ") as mean, STDDEV("@ + column + ") as std_dev FROM "@
        + table + " WHERE "@ + column + " IS NOT NULL) SELECT *, ABS(("@ + column
        + " - stats.mean) / stats.std_dev) as z_score FROM "@ + table
        + " CROSS JOIN stats WHERE ABS(("@ + column + " - stats.mean) / stats.std_dev) > "@
        + threshold
}

/// Compile an outlier-detection statement for `column` of `table`.
///
/// `threshold` is the z-score cut-off as decimal literal text, used only by
/// the `zscore` method and defaulting to `3`. Succeeds exactly for the
/// supported methods; an unknown method yields a validation error naming it.
pub fn compile_outliers(
    table: &str,
    column: &str,
    method: &str,
    threshold: &Option<String>,
) -> (r: Result<String, CoreError>)
    ensures
        r is Ok <==> supported_outlier_method(method@),
        method@ == "iqr"@ ==> (r matches Ok(s) && s@ == iqr_query_model(table@, column@)),
        method@ == "zscore"@ ==> (r matches Ok(s) && s@ == zscore_query_model(
            table@,
            column@,
            threshold_model(*threshold),
        )),
        r matches Err(e) ==> (e matches CoreError::Validation(m) && m@
            == "Invalid outlier detection method: "@ + method@),
{
    if str_eq(method, "iqr") {
        let r = String::from_str(
            "WITH stats AS (SELECT PERCENTILE_CONT(0.25) WITHIN GROUP (ORDER BY ",
        ).concat(column).concat(") as q1, PERCENTILE_CONT(0.75) WITHIN GROUP (ORDER BY ").concat(
            column,
        ).concat(") as q3 FROM ").concat(table).concat(" WHERE ").concat(column).concat(
            " IS NOT NULL), outlier_bounds AS (SELECT q1 - 1.5 * (q3 - q1) as lower_bound, q3 + 1.5 * (q3 - q1) as upper_bound FROM stats) SELECT * FROM ",
        ).concat(table).concat(" CROSS JOIN outlier_bounds WHERE ").concat(column).concat(
            " < lower_bound OR ",
        ).concat(column).concat(" > upper_bound");
        proof {
            reveal_strlit("iqr");
            reveal_strlit("zscore");
            assert(r@ =~= iqr_query_model(table@, column@));
            assert("iqr"@.len() == 3 && "zscore"@.len() == 6);
        }
        Ok(r)
    } else if str_eq(method, "zscore") {
        let thr: &str = match threshold {
            Some(t) => t.as_str(),
            None => "3",
        };
        let r = String::from_str("WITH stats AS (SELECT AVG(").concat(column).concat(
            ") as mean, STDDEV(",
        ).concat(column).concat(") as std_dev FROM ").concat(table).concat(" WHERE ").concat(
            column,
        ).concat(" IS NOT NULL) SELECT *, ABS((").concat(column).concat(
            " - stats.mean) / stats.std_dev) as z_score FROM ",
        ).concat(table).concat(" CROSS JOIN stats WHERE ABS((").concat(column).concat(
            " - stats.mean) / stats.std_dev) > ",
        ).concat(thr);
        proof {
            reveal_strlit("iqr");
            reveal_strlit("zscore");
            assert(r@ =~= zscore_query_model(table@, column@, threshold_model(*threshold)));
            assert("iqr"@.len() == 3 && "zscore"@.len() == 6);
        }
        Ok(r)
    } else {
        Err(
            CoreError::Validation(
                String::from_str("Invalid outlier detection method: ").concat(method),
            ),
        )
    }
}

/// The pairwise-correlation statement for two columns, null pairs excluded.
pub open spec fn correlation_query_model(table: Seq<char>, a: Seq<char>, b: Seq<char>) -> Seq<
    char,
> {
    "SELECT CORR("@ + a + ", "@ + b + ") as correlation FROM "@ + table + " WHERE "@ + a
        + " IS NOT NULL AND "@ + b + " IS NOT NULL"@
}

/// Compile the correlation statement for one pair of columns; a matrix
/// request issues one such statement per ordered pair.
pub fn correlation_query(table: &str, a: &str, b: &str) -> (r: String)
    ensures
        r@ == correlation_query_model(table@, a@, b@),
{
    let r = String::from_str("SELECT CORR(").concat(a).concat(", ").concat(b).concat(
        ") as correlation FROM ",
    ).concat(table).concat(" WHERE ").concat(a).concat(" IS NOT NULL AND ").concat(b).concat(
        " IS NOT NULL",
    );
    proof {
        assert(r@ =~= correlation_query_model(table@, a@, b@));
    }
    r
}

/// The moving-average statement: the window covers the current row and the
/// `window_size - 1` rows preceding it in the caller-supplied order.
pub open spec fn moving_average_query_model(
    table: Seq<char>,
    value_column: Seq<char>,
    order_column: Seq<char>,
    preceding: nat,
) -> Seq<char> {
    "SELECT *, AVG("@ + value_column + ") OVER (ORDER BY "@ + order_column + " ROWS BETWEEN "@
        + dec_model(preceding) + " PRECEDING AND CURRENT ROW) as moving_avg FROM "@ + table
        + " ORDER BY "@ + order_column
}

/// Compile a moving-average statement with a window of `window_size` rows.
pub fn moving_average_query(
    table: &str,
    value_column: &str,
    order_column: &str,
    window_size: i32,
) -> (r: String)
    requires
        window_size >= 1,
    ensures
        r@ == moving_average_query_model(
            table@,
            value_column@,
            order_column@,
            (window_size - 1) as nat,
        ),
{
    let preceding: usize = (window_size - 1) as usize;
    let rendered = decimal_of(preceding);
    let r = String::from_str("SELECT *, AVG(").concat(value_column).concat(
        ") OVER (ORDER BY ",
    ).concat(order_column).concat(" ROWS BETWEEN ").concat(rendered.as_str()).concat(
        " PRECEDING AND CURRENT ROW) as moving_avg FROM ",
    ).concat(table).concat(" ORDER BY ").concat(order_column);
    proof {
        assert(r@ =~= moving_average_query_model(
            table@,
            value_column@,
            order_column@,
            (window_size - 1) as nat,
        ));
    }
    r
}

/// The number of rows a preview may request: the caller's limit clamped to
/// the preview cap, or the default preview size when unspecified.
pub open spec fn preview_limit_model(requested: Option<usize>) -> nat {
    match requested {
        Some(n) => if n < 10000 {
            n as nat
        } else {
            10000
        },
        None => 1000,
    }
}

/// The preview offset: the caller's offset, or zero when unspecified.
pub open spec fn preview_offset_model(requested: Option<usize>) -> nat {
    match requested {
        Some(n) => n as nat,
        None => 0,
    }
}

/// The preview statement over a data source's backing table, with optional
/// filter conditions and the clamped limit and offset.
pub open spec fn preview_query_model(
    source_id: Seq<char>,
    limit: Option<usize>,
    offset: Option<usize>,
    filters: Option<Vec<QueryFilter>>,
) -> Seq<char> {
    let tail = " LIMIT "@ + dec_model(preview_limit_model(limit)) + " OFFSET "@ + dec_model(
        preview_offset_model(offset),
    );
    let head = "SELECT * FROM "@ + table_name_model(source_id);
    match filters {
        Some(fs) => if fs@.len() == 0 {
            head + tail
        } else {
            head + " WHERE "@ + join_model(conditions_model(fs@), " AND "@) + tail
        },
        None => head + tail,
    }
}

/// Clamp a requested preview size to the preview row cap, defaulting when
/// the request named none.
pub fn preview_row_limit(requested: Option<usize>) -> (r: usize)
    ensures
        r == preview_limit_model(requested),
        r <= 10000,
{
    match requested {
        Some(n) => if n < 10000 {
            n
        } else {
            10000
        },
        None => 1000,
    }
}

/// Compile a preview statement for a data source.
pub fn compile_preview(
    source_id: &str,
    limit: Option<usize>,
    offset: Option<usize>,
    filters: &Option<Vec<QueryFilter>>,
) -> (r: String)
    ensures
        r@ == preview_query_model(source_id@, limit, offset, *filters),
{
    let effective_limit = preview_row_limit(limit);
    let effective_offset: usize = match offset {
        Some(n) => n,
        None => 0,
    };
    let table = table_name_for(source_id);
    let mut sql = String::from_str("SELECT * FROM ").concat(table.as_str());
    match filters {
        Some(fs) => {
            if fs.len() > 0 {
                let conds = filter_conditions(fs);
                sql.append(" WHERE ");
                let joined = join_with(&conds, " AND ");
                sql.append(joined.as_str());
            }
        },
        None => {},
    }
    sql.append(" LIMIT ");
    let limit_text = decimal_of(effective_limit);
    sql.append(limit_text.as_str());
    sql.append(" OFFSET ");
    let offset_text = decimal_of(effective_offset);
    sql.append(offset_text.as_str());
    proof {
        assert(sql@ =~= preview_query_model(source_id@, limit, offset, *filters));
    }
    sql
}

/// The row-count statement used for basic table statistics.
pub open spec fn count_query_model(table: Seq<char>) -> Seq<char> {
    "SELECT COUNT(*) as row_count FROM "@ + table
}

/// Compile the row-count statement for a table.
pub fn count_query(table: &str) -> (r: String)
    ensures
        r@ == count_query_model(table@),
{
    String::from_str("SELECT COUNT(*) as row_count FROM ").concat(table)
}

/// The introspection statement that yields a table's column descriptors.
pub open spec fn describe_query_model(table: Seq<char>) -> Seq<char> {
    "DESCRIBE "@ + table
}

/// Compile the introspection statement for a table.
pub fn describe_query(table: &str) -> (r: String)
    ensures
        r@ == describe_query_model(table@),
{
    String::from_str("DESCRIBE ").concat(table)
}

/// A list of `n` parameter placeholders.
pub open spec fn placeholders_model(n: int) -> Seq<Seq<char>> {
    Seq::new(if n < 0 {
        0
    } else {
        n as nat
    }, |i: int| "?"@)
}

/// The bulk-insert statement: the column list verbatim and one parameter
/// placeholder per column.
pub open spec fn bulk_insert_query_model(table: Seq<char>, columns: Seq<String>) -> Seq<char> {
    "INSERT INTO "@ + table + " ("@ + join_model(seq_views(columns), ", "@) + ") VALUES ("@
        + join_model(placeholders_model(columns.len() as int), ", "@) + ")"@
}

/// Compile the bulk-insert statement for a table and its column list.
pub fn bulk_insert_query(table: &str, columns: &Vec<String>) -> (r: String)
    ensures
        r@ == bulk_insert_query_model(table@, columns@),
{
    let mut marks: Vec<String> = Vec::new();
    let mut i: usize = 0;
    while i < columns.len()
        invariant
            i <= columns@.len(),
            marks@.len() == i,
            forall|j: int| 0 <= j < i ==> #[trigger] marks@[j]@ == "?"@,
        decreases columns@.len() - i,
    {
        marks.push(String::from_str("?"));
        i += 1;
    }
    proof {
        assert(seq_views(marks@) =~= placeholders_model(columns@.len() as int));
    }
    let column_list = join_with(columns, ", ");
    let placeholder_list = join_with(&marks, ", ");
    let r = String::from_str("INSERT INTO ").concat(table).concat(" (").concat(
        column_list.as_str(),
    ).concat(") VALUES (").concat(placeholder_list.as_str()).concat(")");
    proof {
        assert(r@ =~= bulk_insert_query_model(table@, columns@));
    }
    r
}

/// The statement that refreshes a table's statistics.
pub open spec fn analyze_query_model(table: Seq<char>) -> Seq<char> {
    "ANALYZE "@ + table
}

/// Compile the statistics-refresh statement for a table.
pub fn analyze_query(table: &str) -> (r: String)
    ensures
        r@ == analyze_query_model(table@),
{
    String::from_str("ANALYZE ").concat(table)
}

/// The name under which an index is created: the caller's name, or
/// `idx_{table}_{column}` when none was given.
pub open spec fn index_name_model(
    table: Seq<char>,
    column: Seq<char>,
    index_name: Option<String>,
) -> Seq<char> {
    match index_name {
        Some(n) => n@,
        None => "idx_"@ + table + "_"@ + column,
    }
}

/// The index-creation statement, idempotent on an existing name.
pub open spec fn index_query_model(
    table: Seq<char>,
    column: Seq<char>,
    index_name: Option<String>,
) -> Seq<char> {
    "CREATE INDEX IF NOT EXISTS "@ + index_name_model(table, column, index_name) + " ON "@ + table
        + " ("@ + column + ")"@
}

/// Compile the index-creation statement for one column of a table.
pub fn index_query(table: &str, column: &str, index_name: &Option<String>) -> (r: String)
    ensures
        r@ == index_query_model(table@, column@, *index_name),
{
    let name: String = match index_name {
        Some(n) => n.clone(),
        None => String::from_str("idx_").concat(table).concat("_").concat(column),
    };
    let r = String::from_str("CREATE INDEX IF NOT EXISTS ").concat(name.as_str()).concat(
        " ON ",
    ).concat(table).concat(" (").concat(column).concat(")");
    proof {
        assert(r@ =~= index_query_model(table@, column@, *index_name));
    }
    r
}

/// The export formats the compiler understands.
pub open spec fn supported_export_format(format: Seq<char>) -> bool {
    format == "csv"@ || format == "parquet"@ || format == "json"@
}

/// The export statement for a supported format.
pub open spec fn export_query_model(
    table: Seq<char>,
    format: Seq<char>,
    file_path: Seq<char>,
) -> Seq<char> {
    if format == "csv"@ {
        "COPY "@ + table + " TO '"@ + file_path + "' (FORMAT CSV, HEADER)"@
    } else if format == "parquet"@ {
        "COPY "@ + table + " TO '"@ + file_path + "' (FORMAT PARQUET)"@
    } else {
        "COPY "@ + table + " TO '"@ + file_path + "' (FORMAT JSON)"@
    }
}

/// Compile the export statement for a table, by format name.
///
/// Succeeds exactly for the supported formats; any other name yields a
/// validation error naming it.
pub fn export_query(table: &str, format: &str, file_path: &str) -> (r: Result<String, CoreError>)
    ensures
        r is Ok <==> supported_export_format(format@),
        r matches Ok(s) ==> s@ == export_query_model(table@, format@, file_path@),
        r matches Err(e) ==> (e matches CoreError::Validation(m) && m@
            == "Unsupported export format: "@ + format@),
{
    if str_eq(format, "csv") {
        let r = String::from_str("COPY ").concat(table).concat(" TO '").concat(file_path).concat(
            "' (FORMAT CSV, HEADER)",
        );
        proof {
            reveal_strlit("csv");
            reveal_strlit("parquet");
            assert("csv"@.len() == 3 && "parquet"@.len() == 7);
            assert(r@ =~= export_query_model(table@, format@, file_path@));
        }
        Ok(r)
    } else if str_eq(format, "parquet") {
        let r = String::from_str("COPY ").concat(table).concat(" TO '").concat(file_path).concat(
            "' (FORMAT PARQUET)",
        );
        proof {
            reveal_strlit("csv");
            reveal_strlit("parquet");
            assert("csv"@.len() == 3 && "parquet"@.len() == 7);
            assert(r@ =~= export_query_model(table@, format@, file_path@));
        }
        Ok(r)
    } else if str_eq(format, "json") {
        let r = String::from_str("COPY ").concat(table).concat(" TO '").concat(file_path).concat(
            "' (FORMAT JSON)",
        );
        proof {
            reveal_strlit("csv");
            reveal_strlit("parquet");
            reveal_strlit("json");
            assert("csv"@.len() == 3 && "parquet"@.len() == 7 && "json"@.len() == 4);
            assert(r@ =~= export_query_model(table@, format@, file_path@));
        }
        Ok(r)
    } else {
        Err(
            CoreError::Validation(String::from_str("Unsupported export format: ").concat(format)),
        )
    }
}

/// The per-column null statistics statement of the data-quality report.
pub open spec fn null_stats_query_model(table: Seq<char>, column: Seq<char>) -> Seq<char> {
    "SELECT COUNT(*) as total_rows, COUNT("@ + column + ") as non_null_rows, (COUNT(*) - COUNT("@
        + column + ")) as null_rows, ROUND((COUNT(*) - COUNT("@ + column
        + ")) * 100.0 / COUNT(*), 2) as null_percentage FROM "@ + table
}

/// Compile the null-statistics statement for one column of a table.
pub fn null_stats_query(table: &str, column: &str) -> (r: String)
    ensures
        r@ == null_stats_query_model(table@, column@),
{
    let r = String::from_str("SELECT COUNT(*) as total_rows, COUNT(").concat(column).concat(
        ") as non_null_rows, (COUNT(*) - COUNT(",
    ).concat(column).concat(")) as null_rows, ROUND((COUNT(*) - COUNT(").concat(column).concat(
        ")) * 100.0 / COUNT(*), 2) as null_percentage FROM ",
    ).concat(table);
    proof {
        assert(r@ =~= null_stats_query_model(table@, column@));
    }
    r
}

} // verus!
