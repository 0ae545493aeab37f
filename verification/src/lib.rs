//! Persistence layer of a personal game-activity tracker.
//!
//! Play sessions ("logs") are recorded against catalogued games in a SQLite
//! store. The library validates what a caller asks for, assembles the SQL
//! statements, hands them to the engine and checks and hydrates what the
//! engine hands back.
//!
//! - [`records`]: the records that callers hand in and get back, and the
//!   errors.
//! - [`values`]: parameters, result cells and statements as plain values.
//! - [`text`]: equality and order on text.
//! - [`query`], [`statements`]: the statements, and the allow-lists for the
//!   words that are spliced into their text.
//! - [`engine`]: the handle to the store and the calls into SQLite.
//! - [`hydrate`], [`listing`], [`statistics`]: from result rows to records,
//!   listings and totals.
//! - [`repository`]: the operations.
//! - [`laws`]: what holds of them for every input.

pub mod engine;
pub mod hydrate;
pub mod laws;
pub mod listing;
pub mod query;
pub mod records;
pub mod repository;
pub mod statements;
pub mod statistics;
pub mod text;
pub mod values;

pub use engine::Store;
pub use records::{
    DashboardStatistics, ExecutableDetails, Game, Log, LogData, LogUpdateData, StoreError,
};
pub use repository::{
    add_executable_details, add_log, delete_log, get_dashboard_statistics,
    get_executable_details, get_log_by_id, get_logged_game, get_logs, get_recent_logs,
    initialize_database, update_log,
};
