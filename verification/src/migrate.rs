//! The schema migration catalog and the decision which migrations are
//! still pending for a database at a given version. Running a statement
//! against the engine is the surrounding plumbing's part; the catalog,
//! its ordering and the pending selection are verified here.

use vstd::prelude::*;

verus! {

/// One schema migration: its position in the catalog, a human-readable
/// name, and the DDL it applies.
#[derive(Debug, Clone, PartialEq, Eq)]
pub struct Migration {
    pub version: i32,
    pub name: String,
    pub sql: String,
}

/// The full migration catalog, versions ascending from one, one entry per
/// version.
pub fn get_migrations() -> (r: Vec<Migration>)
    ensures
        r@.len() == 5,
        forall|i: int| 0 <= i < r@.len() ==> #[trigger] r@[i].version == i + 1,
{
    let mut migrations: Vec<Migration> = Vec::new();
    migrations.push(
        Migration {
            version: 1,
            name: String::from_str("Create data_sources table"),
            sql: String::from_str(
                "CREATE TABLE data_sources (id VARCHAR PRIMARY KEY, name VARCHAR NOT NULL, type VARCHAR NOT NULL CHECK (type IN ('file', 'database', 'api')), file_path VARCHAR, schema_info JSON, row_count BIGINT DEFAULT 0, size_bytes BIGINT DEFAULT 0, created_at TIMESTAMP DEFAULT CURRENT_TIMESTAMP, updated_at TIMESTAMP DEFAULT CURRENT_TIMESTAMP);",
            ),
        },
    );
    migrations.push(
        Migration {
            version: 2,
            name: String::from_str("Create dashboard_configs table"),
            sql: String::from_str(
                "CREATE TABLE dashboard_configs (id VARCHAR PRIMARY KEY, name VARCHAR NOT NULL, layout JSON NOT NULL, filters JSON, data_source_id VARCHAR, refresh_interval INTEGER, created_at TIMESTAMP DEFAULT CURRENT_TIMESTAMP, updated_at TIMESTAMP DEFAULT CURRENT_TIMESTAMP, FOREIGN KEY (data_source_id) REFERENCES data_sources(id) ON DELETE SET NULL);",
            ),
        },
    );
    migrations.push(
        Migration {
            version: 3,
            name: String::from_str("Create query_cache table"),
            sql: String::from_str(
                "CREATE TABLE query_cache (id VARCHAR PRIMARY KEY, query_hash VARCHAR NOT NULL UNIQUE, query_sql TEXT NOT NULL, result_data JSON, data_source_id VARCHAR, created_at TIMESTAMP DEFAULT CURRENT_TIMESTAMP, expires_at TIMESTAMP, FOREIGN KEY (data_source_id) REFERENCES data_sources(id) ON DELETE CASCADE); CREATE INDEX idx_query_cache_hash ON query_cache(query_hash); CREATE INDEX idx_query_cache_expires ON query_cache(expires_at);",
            ),
        },
    );
    migrations.push(
        Migration {
            version: 4,
            name: String::from_str("Create analytics_metrics table"),
            sql: String::from_str(
                "CREATE TABLE analytics_metrics (id VARCHAR PRIMARY KEY, data_source_id VARCHAR NOT NULL, metric_name VARCHAR NOT NULL, metric_value DOUBLE, metadata JSON, calculated_at TIMESTAMP DEFAULT CURRENT_TIMESTAMP, FOREIGN KEY (data_source_id) REFERENCES data_sources(id) ON DELETE CASCADE); CREATE INDEX idx_analytics_metrics_source ON analytics_metrics(data_source_id); CREATE INDEX idx_analytics_metrics_name ON analytics_metrics(metric_name);",
            ),
        },
    );
    migrations.push(
        Migration {
            version: 5,
            name: String::from_str("Create system_stats table"),
            sql: String::from_str(
                "CREATE TABLE system_stats (id INTEGER PRIMARY KEY, memory_usage BIGINT, active_connections INTEGER, query_count BIGINT DEFAULT 0, error_count BIGINT DEFAULT 0, recorded_at TIMESTAMP DEFAULT CURRENT_TIMESTAMP); CREATE INDEX idx_system_stats_recorded ON system_stats(recorded_at);",
            ),
        },
    );
    migrations
}

/// The migrations among the first `n` of `s` that still have to run on a
/// database at `current_version`: those with a higher version, in order.
pub open spec fn pending_model(s: Seq<Migration>, current_version: i32, n: int) -> Seq<Migration>
    decreases n,
{
    if n <= 0 {
        Seq::empty()
    } else {
        pending_model(s, current_version, n - 1) + (if s[n - 1].version > current_version {
            seq![s[n - 1]]
        } else {
            Seq::empty()
        })
    }
}

/// The migrations of `catalog` that still have to run on a database at
/// `current_version`: exactly those with a higher version, in catalog
/// order.
pub fn pending_migrations(catalog: &Vec<Migration>, current_version: i32) -> (r: Vec<Migration>)
    ensures
        r@ == pending_model(catalog@, current_version, catalog@.len() as int),
{
    let mut out: Vec<Migration> = Vec::new();
    let mut i: usize = 0;
    while i < catalog.len()
        invariant
            i <= catalog@.len(),
            out@ == pending_model(catalog@, current_version, i as int),
        decreases catalog@.len() - i,
    {
        let m = &catalog[i];
        if m.version > current_version {
            let picked = Migration { version: m.version, name: m.name.clone(), sql: m.sql.clone() };
            proof {
                assert(picked == catalog@[i as int]);
            }
            out.push(picked);
        }
        i += 1;
    }
    out
}

} // verus!
