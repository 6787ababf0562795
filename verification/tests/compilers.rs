use dashboard_core::compile::AggregationOperation;
use dashboard_core::compile::AggregationRequest;
use dashboard_core::compile::FilterValue;
use dashboard_core::compile::QueryFilter;
use dashboard_core::compile::compile_aggregation;
use dashboard_core::compile::compile_outliers;
use dashboard_core::compile::compile_preview;
use dashboard_core::compile::compile_time_series;
use dashboard_core::compile::analyze_query;
use dashboard_core::compile::bulk_insert_query;
use dashboard_core::compile::correlation_query;
use dashboard_core::compile::export_query;
use dashboard_core::compile::index_query;
use dashboard_core::compile::count_query;
use dashboard_core::compile::describe_query;
use dashboard_core::compile::moving_average_query;
use dashboard_core::compile::null_stats_query;
use dashboard_core::compile::preview_row_limit;
use dashboard_core::compile::statistics_query;
use dashboard_core::error::CoreError;
use dashboard_core::table_name_for;
use dashboard_core::target_table;

fn request(ops: Vec<AggregationOperation>) -> AggregationRequest {
    AggregationRequest {
        data_source_id: "abc".to_string(),
        operations: ops,
        group_by: None,
        filters: None,
        limit: None,
    }
}

#[test]
fn test_table_name_derivation() {
    assert_eq!(table_name_for("ab-cd-ef"), "data_source_ab_cd_ef");
    assert_eq!(table_name_for("plain"), "data_source_plain");
    assert_eq!(target_table(&None), "main");
    assert_eq!(
        target_table(&Some("my-source".to_string())),
        "data_source_my_source"
    );
}

#[test]
fn test_aggregation_grouped_average() {
    let mut req = request(vec![AggregationOperation::new(
        "value".to_string(),
        "avg".to_string(),
    )]);
    req.group_by = Some(vec!["region".to_string()]);

    let sql = compile_aggregation(&req).unwrap();
    assert_eq!(
        sql,
        "SELECT region, AVG(value) AS avg_value FROM data_source_abc GROUP BY region"
    );
}

#[test]
fn test_aggregation_all_operations() {
    let ops = vec![
        AggregationOperation::new("a".to_string(), "sum".to_string()),
        AggregationOperation::new("b".to_string(), "count".to_string()),
        AggregationOperation::new("c".to_string(), "min".to_string()),
        AggregationOperation::new("d".to_string(), "max".to_string()),
        AggregationOperation::new("e".to_string(), "distinct_count".to_string()),
    ];
    let sql = compile_aggregation(&request(ops)).unwrap();
    assert_eq!(
        sql,
        "SELECT SUM(a) AS sum_a, COUNT(b) AS count_b, MIN(c) AS min_c, MAX(d) AS max_d, COUNT(DISTINCT e) AS distinct_count_e FROM data_source_abc"
    );
}

#[test]
fn test_aggregation_group_fields_prepended_in_reverse() {
    let mut req = request(vec![AggregationOperation::new(
        "sales".to_string(),
        "sum".to_string(),
    )]);
    req.group_by = Some(vec!["region".to_string(), "city".to_string()]);

    let sql = compile_aggregation(&req).unwrap();
    assert_eq!(
        sql,
        "SELECT city, region, SUM(sales) AS sum_sales FROM data_source_abc GROUP BY region, city"
    );
}

#[test]
fn test_aggregation_filters_and_limit() {
    let mut req = request(vec![AggregationOperation::new(
        "sales".to_string(),
        "sum".to_string(),
    )]);
    req.filters = Some(vec![
        QueryFilter {
            field: "city".to_string(),
            value: FilterValue::Text("Berlin".to_string()),
        },
        QueryFilter {
            field: "year".to_string(),
            value: FilterValue::Number("2024".to_string()),
        },
    ]);
    req.limit = Some(25);

    let sql = compile_aggregation(&req).unwrap();
    assert_eq!(
        sql,
        "SELECT SUM(sales) AS sum_sales FROM data_source_abc WHERE city LIKE '%Berlin%' AND year = 2024 LIMIT 25"
    );
}

#[test]
fn test_aggregation_unsupported_operation() {
    let ops = vec![
        AggregationOperation::new("a".to_string(), "sum".to_string()),
        AggregationOperation::new("b".to_string(), "median".to_string()),
    ];
    let err = compile_aggregation(&request(ops)).unwrap_err();
    match err {
        CoreError::Validation(m) => {
            assert_eq!(m, "Unsupported aggregation operation: median");
        }
        other => panic!("expected a validation error, got {:?}", other),
    }
}

#[test]
fn test_statistics_query_text() {
    let sql = statistics_query("data_source_t", "value");
    assert_eq!(
        sql,
        "SELECT COUNT(value) as count, AVG(value) as mean, MIN(value) as min, MAX(value) as max, STDDEV(value) as std_dev, PERCENTILE_CONT(0.5) WITHIN GROUP (ORDER BY value) as median, PERCENTILE_CONT(0.25) WITHIN GROUP (ORDER BY value) as q1, PERCENTILE_CONT(0.75) WITHIN GROUP (ORDER BY value) as q3 FROM data_source_t WHERE value IS NOT NULL"
    );
}

#[test]
fn test_time_series_intervals() {
    for interval in ["hour", "day", "week", "month"] {
        let sql = compile_time_series("t", "ts", "v", interval, "sum").unwrap();
        let expected = format!(
            "SELECT date_trunc('{0}', ts) as time_period, SUM(v) as value FROM t WHERE ts IS NOT NULL AND v IS NOT NULL GROUP BY date_trunc('{0}', ts) ORDER BY time_period",
            interval
        );
        assert_eq!(sql, expected);
    }
}

#[test]
fn test_time_series_invalid_interval() {
    let err = compile_time_series("t", "ts", "v", "year", "sum").unwrap_err();
    match err {
        CoreError::Validation(m) => assert_eq!(m, "Invalid interval: year"),
        other => panic!("expected a validation error, got {:?}", other),
    }
}

#[test]
fn test_time_series_invalid_aggregation() {
    let err = compile_time_series("t", "ts", "v", "day", "distinct_count").unwrap_err();
    match err {
        CoreError::Validation(m) => assert_eq!(m, "Invalid aggregation: distinct_count"),
        other => panic!("expected a validation error, got {:?}", other),
    }
}

#[test]
fn test_outliers_iqr_query() {
    let sql = compile_outliers("data_source_t", "x", "iqr", &None).unwrap();
    assert_eq!(
        sql,
        "WITH stats AS (SELECT PERCENTILE_CONT(0.25) WITHIN GROUP (ORDER BY x) as q1, PERCENTILE_CONT(0.75) WITHIN GROUP (ORDER BY x) as q3 FROM data_source_t WHERE x IS NOT NULL), outlier_bounds AS (SELECT q1 - 1.5 * (q3 - q1) as lower_bound, q3 + 1.5 * (q3 - q1) as upper_bound FROM stats) SELECT * FROM data_source_t CROSS JOIN outlier_bounds WHERE x < lower_bound OR x > upper_bound"
    );
}

#[test]
fn test_outliers_zscore_default_threshold() {
    let sql = compile_outliers("t", "x", "zscore", &None).unwrap();
    assert_eq!(
        sql,
        "WITH stats AS (SELECT AVG(x) as mean, STDDEV(x) as std_dev FROM t WHERE x IS NOT NULL) SELECT *, ABS((x - stats.mean) / stats.std_dev) as z_score FROM t CROSS JOIN stats WHERE ABS((x - stats.mean) / stats.std_dev) > 3"
    );
}

#[test]
fn test_outliers_zscore_custom_threshold() {
    let sql = compile_outliers("t", "x", "zscore", &Some("2.5".to_string())).unwrap();
    assert!(sql.ends_with("ABS((x - stats.mean) / stats.std_dev) > 2.5"));
}

#[test]
fn test_outliers_unknown_method() {
    let err = compile_outliers("t", "x", "mad", &None).unwrap_err();
    match err {
        CoreError::Validation(m) => assert_eq!(m, "Invalid outlier detection method: mad"),
        other => panic!("expected a validation error, got {:?}", other),
    }
}

#[test]
fn test_correlation_query_text() {
    let sql = correlation_query("t", "a", "b");
    assert_eq!(
        sql,
        "SELECT CORR(a, b) as correlation FROM t WHERE a IS NOT NULL AND b IS NOT NULL"
    );
}

#[test]
fn test_moving_average_query_text() {
    let sql = moving_average_query("t", "v", "ts", 7);
    assert_eq!(
        sql,
        "SELECT *, AVG(v) OVER (ORDER BY ts ROWS BETWEEN 6 PRECEDING AND CURRENT ROW) as moving_avg FROM t ORDER BY ts"
    );
}

#[test]
fn test_preview_defaults() {
    let sql = compile_preview("abc", None, None, &None);
    assert_eq!(sql, "SELECT * FROM data_source_abc LIMIT 1000 OFFSET 0");
}

#[test]
fn test_preview_clamps_limit() {
    let sql = compile_preview("abc", Some(50000), Some(20), &None);
    assert_eq!(sql, "SELECT * FROM data_source_abc LIMIT 10000 OFFSET 20");

    assert_eq!(preview_row_limit(None), 1000);
    assert_eq!(preview_row_limit(Some(500)), 500);
    assert_eq!(preview_row_limit(Some(50000)), 10000);
}

#[test]
fn test_preview_with_filters() {
    let filters = Some(vec![QueryFilter {
        field: "name".to_string(),
        value: FilterValue::Text("Ada".to_string()),
    }]);
    let sql = compile_preview("abc", Some(10), None, &filters);
    assert_eq!(
        sql,
        "SELECT * FROM data_source_abc WHERE name LIKE '%Ada%' LIMIT 10 OFFSET 0"
    );
}

#[test]
fn test_bulk_insert_query_text() {
    let columns = vec!["id".to_string(), "name".to_string(), "age".to_string()];
    assert_eq!(
        bulk_insert_query("t", &columns),
        "INSERT INTO t (id, name, age) VALUES (?, ?, ?)"
    );
}

#[test]
fn test_maintenance_queries() {
    assert_eq!(analyze_query("t"), "ANALYZE t");
    assert_eq!(
        index_query("t", "c", &None),
        "CREATE INDEX IF NOT EXISTS idx_t_c ON t (c)"
    );
    assert_eq!(
        index_query("t", "c", &Some("my_index".to_string())),
        "CREATE INDEX IF NOT EXISTS my_index ON t (c)"
    );
}

#[test]
fn test_export_queries() {
    assert_eq!(
        export_query("t", "csv", "/tmp/out.csv").unwrap(),
        "COPY t TO '/tmp/out.csv' (FORMAT CSV, HEADER)"
    );
    assert_eq!(
        export_query("t", "parquet", "/tmp/out.parquet").unwrap(),
        "COPY t TO '/tmp/out.parquet' (FORMAT PARQUET)"
    );
    assert_eq!(
        export_query("t", "json", "/tmp/out.json").unwrap(),
        "COPY t TO '/tmp/out.json' (FORMAT JSON)"
    );
    match export_query("t", "xml", "/tmp/out.xml").unwrap_err() {
        CoreError::Validation(m) => assert_eq!(m, "Unsupported export format: xml"),
        other => panic!("expected a validation error, got {:?}", other),
    }
}

#[test]
fn test_introspection_queries() {
    assert_eq!(
        count_query("data_source_t"),
        "SELECT COUNT(*) as row_count FROM data_source_t"
    );
    assert_eq!(describe_query("data_source_t"), "DESCRIBE data_source_t");
    assert_eq!(
        null_stats_query("t", "c"),
        "SELECT COUNT(*) as total_rows, COUNT(c) as non_null_rows, (COUNT(*) - COUNT(c)) as null_rows, ROUND((COUNT(*) - COUNT(c)) * 100.0 / COUNT(*), 2) as null_percentage FROM t"
    );
}
