use dashboard_core::error::CoreError;
use dashboard_core::safety::ValidationMode;
use dashboard_core::safety::validate_sql;

#[test]
fn test_drop_rejected_in_general_mode() {
    for sql in [
        "DROP TABLE users",
        "drop table users",
        "DrOp TaBlE users",
        "select 1; DROP TABLE users",
    ] {
        let err = validate_sql(sql, ValidationMode::General).unwrap_err();
        match err {
            CoreError::Forbidden(m) => {
                assert_eq!(m, "Destructive operations are not allowed");
            }
            other => panic!("expected a forbidden-statement error, got {:?}", other),
        }
    }
}

#[test]
fn test_delete_rejected_in_general_mode() {
    assert!(validate_sql("DELETE FROM t", ValidationMode::General).is_err());
    // The denylist is lexical: a column merely named like the verb is
    // over-blocked too.
    assert!(validate_sql("SELECT deleted_at FROM t", ValidationMode::General).is_err());
}

#[test]
fn test_insert_rejected_only_in_read_only_mode() {
    let sql = "INSERT INTO t VALUES (1)";
    assert!(validate_sql(sql, ValidationMode::General).is_ok());
    let err = validate_sql(sql, ValidationMode::ReadOnly).unwrap_err();
    match err {
        CoreError::Forbidden(m) => {
            assert_eq!(m, "Only SELECT queries are allowed via WebSocket");
        }
        other => panic!("expected a forbidden-statement error, got {:?}", other),
    }
}

#[test]
fn test_update_rejected_in_read_only_mode() {
    assert!(validate_sql("UPDATE t SET a = 1", ValidationMode::ReadOnly).is_err());
    assert!(validate_sql("update t set a = 1", ValidationMode::General).is_ok());
}

#[test]
fn test_error_messages_carried_verbatim() {
    let validation = CoreError::Validation("Invalid interval: year".to_string());
    assert_eq!(validation.message(), "Invalid interval: year");
    let engine = CoreError::Engine("Parser Error: syntax error".to_string());
    assert_eq!(engine.message(), "Parser Error: syntax error");
    let encoding = CoreError::Encoding("request body is not UTF-8".to_string());
    assert_eq!(encoding.message(), "request body is not UTF-8");
}

#[test]
fn test_select_accepted_in_both_modes() {
    let sql = "SELECT a, b FROM t WHERE a > 1";
    assert!(validate_sql(sql, ValidationMode::General).is_ok());
    assert!(validate_sql(sql, ValidationMode::ReadOnly).is_ok());
}
