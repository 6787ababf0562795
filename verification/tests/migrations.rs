use dashboard_core::migrate::get_migrations;
use dashboard_core::migrate::pending_migrations;

#[test]
fn test_migration_catalog_is_ordered() {
    let catalog = get_migrations();
    assert_eq!(catalog.len(), 5);
    for (i, migration) in catalog.iter().enumerate() {
        assert_eq!(migration.version, (i + 1) as i32);
        assert!(!migration.name.is_empty());
        assert!(migration.sql.starts_with("CREATE TABLE"));
    }
}

#[test]
fn test_pending_migrations_fresh_database() {
    let catalog = get_migrations();
    let pending = pending_migrations(&catalog, 0);
    assert_eq!(pending.len(), 5);
    assert_eq!(pending[0].version, 1);
}

#[test]
fn test_pending_migrations_partially_applied() {
    let catalog = get_migrations();
    let pending = pending_migrations(&catalog, 3);
    let versions: Vec<i32> = pending.iter().map(|m| m.version).collect();
    assert_eq!(versions, vec![4, 5]);
}

#[test]
fn test_pending_migrations_up_to_date() {
    let catalog = get_migrations();
    assert!(pending_migrations(&catalog, 5).is_empty());
    // Running the selection again changes nothing: migrations are
    // idempotent at the planning level.
    assert!(pending_migrations(&catalog, 5).is_empty());
}
