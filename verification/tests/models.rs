use dashboard_core::compile::AggregationOperation;
use dashboard_core::envelope::QueryResult;
use dashboard_core::model::ColumnSchema;
use dashboard_core::model::Config;
use dashboard_core::model::ConnectionManager;
use dashboard_core::model::DataSource;
use dashboard_core::model::DesktopConfig;
use dashboard_core::model::Position;
use dashboard_core::values::DataValue;

#[test]
fn test_column_schema_creation() {
    let column = ColumnSchema::new("id".to_string(), "INTEGER".to_string()).with_constraints(
        false, true, true,
    );

    assert_eq!(column.name, "id");
    assert_eq!(column.column_type, "INTEGER");
    assert!(!column.nullable);
    assert!(column.unique);
    assert!(column.primary_key);
}

#[test]
fn test_data_source_creation() {
    let data_source = DataSource::new(
        "test-id".to_string(),
        "Test Source".to_string(),
        "file".to_string(),
    )
    .with_file_path("/path/to/file.csv".to_string())
    .with_stats(1000, 50000);

    assert_eq!(data_source.id, "test-id");
    assert_eq!(data_source.name, "Test Source");
    assert_eq!(data_source.source_type, "file");
    assert_eq!(data_source.file_path, Some("/path/to/file.csv".to_string()));
    assert_eq!(data_source.row_count, 1000);
    assert_eq!(data_source.size_bytes, 50000);
}

#[test]
fn test_aggregation_operation() {
    let op = AggregationOperation::new("sales".to_string(), "sum".to_string())
        .with_alias("total_sales".to_string());

    assert_eq!(op.field, "sales");
    assert_eq!(op.operation, "sum");
    assert_eq!(op.get_alias(), "total_sales");
}

#[test]
fn test_aggregation_operation_without_alias() {
    let op = AggregationOperation::new("count".to_string(), "avg".to_string());

    assert_eq!(op.get_alias(), "avg_count");
}

#[test]
fn test_config_creation() {
    let config = Config::new("test.db".to_string(), "localhost".to_string(), 8080);

    assert_eq!(config.database_path, "test.db");
    assert_eq!(config.host, "localhost");
    assert_eq!(config.port, 8080);
    assert_eq!(config.max_upload_size, 1024 * 1024 * 1024);
}

#[test]
fn test_query_result_creation() {
    let columns = vec!["id".to_string(), "name".to_string()];
    let data = vec![
        vec![DataValue::Integer(1), DataValue::Text("Alice".to_string())],
        vec![DataValue::Integer(2), DataValue::Text("Bob".to_string())],
    ];

    let result = QueryResult::new(columns.clone(), data);

    assert_eq!(result.columns, columns);
    assert_eq!(result.row_count, 2);
    assert!(!result.is_empty());
}

#[test]
fn test_empty_query_result() {
    let result = QueryResult::empty();

    assert!(result.columns.is_empty());
    assert_eq!(result.row_count, 0);
    assert!(result.is_empty());
}

#[test]
fn test_position_and_window_defaults() {
    let position = Position::new(0, 0, 4, 2);
    assert_eq!(position.x, 0);
    assert_eq!(position.w, 4);

    let desktop = DesktopConfig::default();
    assert_eq!(desktop.database_path, "desktop.db");
    assert!(!desktop.auto_start);
    assert!(desktop.check_updates);
    assert_eq!(desktop.theme, "light");
    assert_eq!(desktop.window_state.width, 1200);
    assert_eq!(desktop.window_state.height, 800);
    assert!(!desktop.window_state.maximized);

    let manager = ConnectionManager::new("dashboard.db".to_string());
    assert_eq!(manager.database_path, "dashboard.db");
}
