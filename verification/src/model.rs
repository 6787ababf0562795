//! Plain data models shared by the compilers, the envelope builder and the
//! surrounding plumbing: widget positions, column schemas, engine metadata
//! and server configuration.

use vstd::prelude::*;

verus! {

/// Placement of a dashboard widget on the grid.
#[derive(Debug, Clone, PartialEq, Eq, Structural)]
pub struct Position {
    pub x: i32,
    pub y: i32,
    pub w: i32,
    pub h: i32,
}

impl Position {
    pub fn new(x: i32, y: i32, w: i32, h: i32) -> (r: Self)
        ensures
            r == (Position { x, y, w, h }),
    {
        Position { x, y, w, h }
    }
}

/// Declared type and constraints of one column of a data source's schema.
#[derive(Debug, Clone, PartialEq, Eq)]
pub struct ColumnSchema {
    pub name: String,
    pub column_type: String,
    pub nullable: bool,
    pub unique: bool,
    pub primary_key: bool,
}

impl ColumnSchema {
    /// A fresh column: nullable, not unique, not a key.
    pub fn new(name: String, column_type: String) -> (r: Self)
        ensures
            r.name == name,
            r.column_type == column_type,
            r.nullable,
            !r.unique,
            !r.primary_key,
    {
        ColumnSchema { name, column_type, nullable: true, unique: false, primary_key: false }
    }

    /// The same column with its constraints set.
    pub fn with_constraints(self, nullable: bool, unique: bool, primary_key: bool) -> (r: Self)
        ensures
            r.name == self.name,
            r.column_type == self.column_type,
            r.nullable == nullable,
            r.unique == unique,
            r.primary_key == primary_key,
    {
        ColumnSchema { nullable, unique, primary_key, ..self }
    }
}

/// A registered data source: its identity, backing file, schema and
/// size statistics. Timestamps are milliseconds since the Unix epoch.
#[derive(Debug, Clone, PartialEq, Eq)]
pub struct DataSource {
    pub id: String,
    pub name: String,
    pub source_type: String,
    pub file_path: Option<String>,
    pub schema: Vec<ColumnSchema>,
    pub row_count: i64,
    pub size_bytes: i64,
    pub created_at: i64,
    pub updated_at: i64,
}

impl DataSource {
    /// A fresh data source with empty schema and zero statistics, stamped
    /// with the current clock reading.
    pub fn new(id: String, name: String, source_type: String) -> (r: Self)
        ensures
            r.id == id,
            r.name == name,
            r.source_type == source_type,
            r.file_path is None,
            r.schema@.len() == 0,
            r.row_count == 0,
            r.size_bytes == 0,
            r.created_at == r.updated_at,
    {
        let now = crate::clock::now_millis();
        DataSource {
            id,
            name,
            source_type,
            file_path: None,
            schema: Vec::new(),
            row_count: 0,
            size_bytes: 0,
            created_at: now,
            updated_at: now,
        }
    }

    /// The same source with its backing file path set.
    pub fn with_file_path(self, file_path: String) -> (r: Self)
        ensures
            r == (DataSource { file_path: Some(file_path), ..self }),
    {
        DataSource { file_path: Some(file_path), ..self }
    }

    /// The same source with its schema set.
    pub fn with_schema(self, schema: Vec<ColumnSchema>) -> (r: Self)
        ensures
            r == (DataSource { schema, ..self }),
    {
        DataSource { schema, ..self }
    }

    /// The same source with fresh size statistics, re-stamped with the
    /// current clock reading.
    pub fn with_stats(self, row_count: i64, size_bytes: i64) -> (r: Self)
        ensures
            r.row_count == row_count,
            r.size_bytes == size_bytes,
            r.id == self.id,
            r.name == self.name,
            r.source_type == self.source_type,
            r.file_path == self.file_path,
            r.schema == self.schema,
            r.created_at == self.created_at,
    {
        let now = crate::clock::now_millis();
        DataSource { row_count, size_bytes, updated_at: now, ..self }
    }
}

/// A request to register a data source.
#[derive(Debug, Clone, PartialEq, Eq)]
pub struct CreateDataSourceRequest {
    pub name: String,
    pub source_type: String,
    pub file_path: Option<String>,
}

/// Server configuration, with the fixed defaults of the service.
#[derive(Debug, Clone, PartialEq, Eq)]
pub struct Config {
    pub database_path: String,
    pub host: String,
    pub port: u16,
    pub max_upload_size: usize,
    pub query_timeout: u64,
    pub cache_ttl: i64,
    pub cors_origins: Vec<String>,
}

impl Config {
    /// A configuration with the service defaults: a one-gigabyte upload
    /// cap, a thirty-second query timeout, a five-minute cache TTL, and
    /// every origin allowed.
    pub fn new(database_path: String, host: String, port: u16) -> (r: Self)
        ensures
            r.database_path == database_path,
            r.host == host,
            r.port == port,
            r.max_upload_size == 1024 * 1024 * 1024,
            r.query_timeout == 30,
            r.cache_ttl == 300,
            r.cors_origins@.len() == 1,
            r.cors_origins@[0]@ == "*"@,
    {
        let mut cors_origins: Vec<String> = Vec::new();
        cors_origins.push(String::from_str("*"));
        Config {
            database_path,
            host,
            port,
            max_upload_size: 1024 * 1024 * 1024,
            query_timeout: 30,
            cache_ttl: 300,
            cors_origins,
        }
    }
}

/// Manager of connections to one database file.
#[derive(Debug, Clone, PartialEq, Eq)]
pub struct ConnectionManager {
    pub database_path: String,
}

impl ConnectionManager {
    pub fn new(database_path: String) -> (r: Self)
        ensures
            r.database_path == database_path,
    {
        ConnectionManager { database_path }
    }
}

/// Engine facts reported by the health endpoints.
#[derive(Debug, Clone, PartialEq, Eq)]
pub struct DatabaseInfo {
    pub version: String,
    pub memory_usage: i64,
    pub table_count: i64,
}

/// The health endpoint's response.
#[derive(Debug, Clone, PartialEq, Eq)]
pub struct HealthResponse {
    pub status: String,
    pub timestamp: String,
    pub version: String,
}

/// The statistics endpoint's response.
#[derive(Debug, Clone, PartialEq, Eq)]
pub struct SystemStats {
    pub database: DatabaseInfo,
    pub memory_usage: i64,
    pub active_connections: i32,
    pub uptime_seconds: i64,
}

/// One column descriptor from engine introspection.
#[derive(Debug, Clone, PartialEq, Eq)]
pub struct ColumnInfo {
    pub name: String,
    pub data_type: String,
    pub nullable: bool,
}

/// A table's descriptors and size, from engine introspection.
#[derive(Debug, Clone, PartialEq, Eq)]
pub struct TableInfo {
    pub name: String,
    pub columns: Vec<ColumnInfo>,
    pub row_count: i64,
    pub size_bytes: i64,
}

/// Title of one chart axis.
#[derive(Debug, Clone, PartialEq, Eq)]
pub struct AGChartAxisTitle {
    pub text: String,
}

/// One chart axis: its kind, its edge of the plot, and an optional title.
#[derive(Debug, Clone, PartialEq, Eq)]
pub struct AGChartAxis {
    pub axis_type: String,
    pub position: String,
    pub title: Option<AGChartAxisTitle>,
}

/// The chart legend's visibility and placement.
#[derive(Debug, Clone, PartialEq, Eq)]
pub struct AGChartLegend {
    pub enabled: bool,
    pub position: Option<String>,
}

/// Remembered placement of the desktop shell's window.
#[derive(Debug, Clone, PartialEq, Eq, Structural)]
pub struct WindowState {
    pub width: u32,
    pub height: u32,
    pub x: i32,
    pub y: i32,
    pub maximized: bool,
}

/// Settings of the desktop shell.
#[derive(Debug, Clone, PartialEq, Eq)]
pub struct DesktopConfig {
    pub database_path: String,
    pub auto_start: bool,
    pub check_updates: bool,
    pub theme: String,
    pub window_state: WindowState,
}

impl Default for DesktopConfig {
    /// The out-of-the-box desktop settings: a local database file, update
    /// checks on, the light theme, and a 1200 by 800 window at (100, 100).
    fn default() -> (r: Self)
        ensures
            r.database_path@ == "desktop.db"@,
            !r.auto_start,
            r.check_updates,
            r.theme@ == "light"@,
            r.window_state == (WindowState {
                width: 1200,
                height: 800,
                x: 100,
                y: 100,
                maximized: false,
            }),
    {
        DesktopConfig {
            database_path: String::from_str("desktop.db"),
            auto_start: false,
            check_updates: true,
            theme: String::from_str("light"),
            window_state: WindowState { width: 1200, height: 800, x: 100, y: 100, maximized: false },
        }
    }
}

} // verus!
