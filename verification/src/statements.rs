//! The statements with a fixed text: the tables of the store, and the
//! lookups and changes that take nothing but bound values.

use vstd::prelude::*;
use vstd::string::*;
use crate::records::{
    ExecutableDetails,
    ExecutableDetailsView,
    Game,
    GameView,
    LogData,
    LogDataView,
    LogUpdateData,
    LogUpdateDataView,
};
use crate::values::{Param, ParamView, Statement, StatementView};

verus! {

/// A statement without bound values.
pub open spec fn plain_query(sql: Seq<char>) -> StatementView {
    StatementView { sql, params: Seq::empty() }
}

/// The batch that sets up the three tables, each only if it is absent.
pub open spec fn schema_query() -> StatementView {
    plain_query(
        "CREATE TABLE IF NOT EXISTS logged_games (id INTEGER PRIMARY KEY, title TEXT, cover_id TEXT); CREATE TABLE IF NOT EXISTS logs (id INTEGER PRIMARY KEY, created_at DEFAULT CURRENT_TIMESTAMP, updated_at DEFAULT CURRENT_TIMESTAMP, date, rating INTEGER, notes TEXT, status TEXT, minutes_played INTEGER, game_id INTEGER REFERENCES logged_games(id)); CREATE TABLE IF NOT EXISTS executable_details (executable_name TEXT, game_id INTEGER REFERENCES logged_games(id));"@,
    )
}

/// Opens a unit of work that is kept or undone as a whole.
pub open spec fn begin_query() -> StatementView {
    plain_query("BEGIN IMMEDIATE"@)
}

/// Keeps the open unit of work.
pub open spec fn commit_query() -> StatementView {
    plain_query("COMMIT"@)
}

/// Undoes the open unit of work.
pub open spec fn rollback_query() -> StatementView {
    plain_query("ROLLBACK"@)
}

/// Looks for the game `id`.
pub open spec fn find_game_query(id: int) -> StatementView {
    StatementView {
        sql: "SELECT id FROM logged_games WHERE id = ?1"@,
        params: seq![ParamView::Integer(id)],
    }
}

/// Stores a game under its catalogue id.
pub open spec fn insert_game_query(game: GameView) -> StatementView {
    StatementView {
        sql: "INSERT INTO logged_games (id, title, cover_id) VALUES (?1, ?2, ?3)"@,
        params: seq![
            ParamView::Integer(game.id),
            ParamView::Text(game.title),
            ParamView::Text(game.cover_id),
        ],
    }
}

/// Stores a log for the game whose id the data carries. Of the game nothing
/// but the id goes into the statement.
pub open spec fn insert_log_query(data: LogDataView) -> StatementView {
    StatementView {
        sql: "INSERT INTO logs (game_id, date, rating, notes, status, minutes_played) VALUES (?1, ?2, ?3, ?4, ?5, ?6)"@,
        params: seq![
            ParamView::Integer(data.game.id),
            ParamView::Text(data.date),
            ParamView::Integer(data.rating),
            ParamView::Text(data.notes),
            ParamView::Text(data.status),
            ParamView::Integer(data.minutes_played),
        ],
    }
}

/// Overwrites the contents of the log `data.id` and renews the time of its
/// last change.
pub open spec fn update_log_query(data: LogUpdateDataView) -> StatementView {
    StatementView {
        sql: "UPDATE logs SET date = ?1, rating = ?2, notes = ?3, status = ?4, minutes_played = ?5, updated_at = CURRENT_TIMESTAMP WHERE id = ?6"@,
        params: seq![
            ParamView::Text(data.date),
            ParamView::Integer(data.rating),
            ParamView::Text(data.notes),
            ParamView::Text(data.status),
            ParamView::Integer(data.minutes_played),
            ParamView::Integer(data.id),
        ],
    }
}

/// Removes the log `id`.
pub open spec fn delete_log_query(id: int) -> StatementView {
    StatementView { sql: "DELETE FROM logs WHERE id = ?1"@, params: seq![ParamView::Integer(id)] }
}

/// Reads the log `id` joined with its game.
pub open spec fn log_by_id_query(id: int) -> StatementView {
    StatementView {
        sql: "SELECT logs.id, logs.created_at, logs.updated_at, logs.date, logs.rating, logs.notes, logs.status, logs.minutes_played, logged_games.id, logged_games.title, logged_games.cover_id FROM logs LEFT JOIN logged_games ON logged_games.id = logs.game_id WHERE logs.id = ?1"@,
        params: seq![ParamView::Integer(id)],
    }
}

/// Reads the game `id`.
pub open spec fn logged_game_query(id: int) -> StatementView {
    StatementView {
        sql: "SELECT id, title, cover_id FROM logged_games WHERE id = ?1"@,
        params: seq![ParamView::Integer(id)],
    }
}

/// Reads the mappings of the executable `name`.
pub open spec fn executable_query(name: Seq<char>) -> StatementView {
    StatementView {
        sql: "SELECT executable_name, game_id FROM executable_details WHERE executable_name = ?1"@,
        params: seq![ParamView::Text(name)],
    }
}

/// Stores a mapping from an executable to a game.
pub open spec fn insert_executable_query(details: ExecutableDetailsView) -> StatementView {
    StatementView {
        sql: "INSERT INTO executable_details (executable_name, game_id) VALUES (?1, ?2)"@,
        params: seq![ParamView::Text(details.name), ParamView::Integer(details.game_id)],
    }
}

/// Reads the date, the status and the minutes of each log whose date lies
/// in the closed interval from `start` to `end`.
pub open spec fn statistics_query(start: Seq<char>, end: Seq<char>) -> StatementView {
    StatementView {
        sql: "SELECT date, status, minutes_played FROM logs WHERE date BETWEEN ?1 AND ?2"@,
        params: seq![ParamView::Text(start), ParamView::Text(end)],
    }
}

fn plain_statement(sql: &str) -> (s: Statement)
    ensures
        s@ == plain_query(sql@),
{
    let s = Statement { sql: String::from_str(sql), params: Vec::new() };
    assert(s@.params =~= Seq::<ParamView>::empty());
    s
}

fn with_params(sql: &str, params: Vec<Param>) -> (s: Statement)
    ensures
        s@ == (StatementView { sql: sql@, params: params.deep_view() }),
{
    Statement { sql: String::from_str(sql), params }
}

fn text_param(s: &str) -> (p: Param)
    ensures
        p@ == ParamView::Text(s@),
{
    Param::Text(String::from_str(s))
}

fn integer_param(v: i32) -> (p: Param)
    ensures
        p@ == ParamView::Integer(v as int),
{
    Param::Integer(v as i64)
}

/// Builds the batch that sets up the tables.
pub fn schema_statement() -> (s: Statement)
    ensures
        s@ == schema_query(),
{
    plain_statement(
        "CREATE TABLE IF NOT EXISTS logged_games (id INTEGER PRIMARY KEY, title TEXT, cover_id TEXT); CREATE TABLE IF NOT EXISTS logs (id INTEGER PRIMARY KEY, created_at DEFAULT CURRENT_TIMESTAMP, updated_at DEFAULT CURRENT_TIMESTAMP, date, rating INTEGER, notes TEXT, status TEXT, minutes_played INTEGER, game_id INTEGER REFERENCES logged_games(id)); CREATE TABLE IF NOT EXISTS executable_details (executable_name TEXT, game_id INTEGER REFERENCES logged_games(id));",
    )
}

/// Builds the statement that opens a unit of work.
pub fn begin_statement() -> (s: Statement)
    ensures
        s@ == begin_query(),
{
    plain_statement("BEGIN IMMEDIATE")
}

/// Builds the statement that keeps the open unit of work.
pub fn commit_statement() -> (s: Statement)
    ensures
        s@ == commit_query(),
{
    plain_statement("COMMIT")
}

/// Builds the statement that undoes the open unit of work.
pub fn rollback_statement() -> (s: Statement)
    ensures
        s@ == rollback_query(),
{
    plain_statement("ROLLBACK")
}

/// Builds the lookup that tells whether the store knows the game `id`.
pub fn find_game_statement(id: i32) -> (s: Statement)
    ensures
        s@ == find_game_query(id as int),
{
    let mut params: Vec<Param> = Vec::new();
    params.push(integer_param(id));
    assert(params.deep_view() =~= seq![ParamView::Integer(id as int)]);
    with_params("SELECT id FROM logged_games WHERE id = ?1", params)
}

/// Builds the statement that stores a game.
pub fn insert_game_statement(game: &Game) -> (s: Statement)
    ensures
        s@ == insert_game_query(game@),
{
    let mut params: Vec<Param> = Vec::new();
    params.push(integer_param(game.id));
    params.push(text_param(game.title.as_str()));
    params.push(text_param(game.cover_id.as_str()));
    assert(params.deep_view() =~= insert_game_query(game@).params);
    with_params("INSERT INTO logged_games (id, title, cover_id) VALUES (?1, ?2, ?3)", params)
}

/// Builds the statement that stores a log for the game whose id it carries.
pub fn insert_log_statement(data: &LogData) -> (s: Statement)
    ensures
        s@ == insert_log_query(data@),
{
    let mut params: Vec<Param> = Vec::new();
    params.push(integer_param(data.game.id));
    params.push(text_param(data.date.as_str()));
    params.push(integer_param(data.rating));
    params.push(text_param(data.notes.as_str()));
    params.push(text_param(data.status.as_str()));
    params.push(integer_param(data.minutes_played));
    assert(params.deep_view() =~= insert_log_query(data@).params);
    with_params(
        "INSERT INTO logs (game_id, date, rating, notes, status, minutes_played) VALUES (?1, ?2, ?3, ?4, ?5, ?6)",
        params,
    )
}

/// Builds the statement that overwrites the contents of a log.
pub fn update_log_statement(data: &LogUpdateData) -> (s: Statement)
    ensures
        s@ == update_log_query(data@),
{
    let mut params: Vec<Param> = Vec::new();
    params.push(text_param(data.date.as_str()));
    params.push(integer_param(data.rating));
    params.push(text_param(data.notes.as_str()));
    params.push(text_param(data.status.as_str()));
    params.push(integer_param(data.minutes_played));
    params.push(integer_param(data.id));
    assert(params.deep_view() =~= update_log_query(data@).params);
    with_params(
        "UPDATE logs SET date = ?1, rating = ?2, notes = ?3, status = ?4, minutes_played = ?5, updated_at = CURRENT_TIMESTAMP WHERE id = ?6",
        params,
    )
}

/// Builds the statement that removes the log `id`.
pub fn delete_log_statement(id: i32) -> (s: Statement)
    ensures
        s@ == delete_log_query(id as int),
{
    let mut params: Vec<Param> = Vec::new();
    params.push(integer_param(id));
    assert(params.deep_view() =~= seq![ParamView::Integer(id as int)]);
    with_params("DELETE FROM logs WHERE id = ?1", params)
}

/// Builds the statement that reads the log `id` with its game.
pub fn log_by_id_statement(id: i32) -> (s: Statement)
    ensures
        s@ == log_by_id_query(id as int),
{
    let mut params: Vec<Param> = Vec::new();
    params.push(integer_param(id));
    assert(params.deep_view() =~= seq![ParamView::Integer(id as int)]);
    with_params(
        "SELECT logs.id, logs.created_at, logs.updated_at, logs.date, logs.rating, logs.notes, logs.status, logs.minutes_played, logged_games.id, logged_games.title, logged_games.cover_id FROM logs LEFT JOIN logged_games ON logged_games.id = logs.game_id WHERE logs.id = ?1",
        params,
    )
}

/// Builds the statement that reads the game `id`.
pub fn logged_game_statement(id: i32) -> (s: Statement)
    ensures
        s@ == logged_game_query(id as int),
{
    let mut params: Vec<Param> = Vec::new();
    params.push(integer_param(id));
    assert(params.deep_view() =~= seq![ParamView::Integer(id as int)]);
    with_params("SELECT id, title, cover_id FROM logged_games WHERE id = ?1", params)
}

/// Builds the statement that reads the mappings of an executable.
pub fn executable_statement(name: &str) -> (s: Statement)
    ensures
        s@ == executable_query(name@),
{
    let mut params: Vec<Param> = Vec::new();
    params.push(text_param(name));
    assert(params.deep_view() =~= seq![ParamView::Text(name@)]);
    with_params(
        "SELECT executable_name, game_id FROM executable_details WHERE executable_name = ?1",
        params,
    )
}

/// Builds the statement that stores a mapping of an executable.
pub fn insert_executable_statement(details: &ExecutableDetails) -> (s: Statement)
    ensures
        s@ == insert_executable_query(details@),
{
    let mut params: Vec<Param> = Vec::new();
    params.push(text_param(details.name.as_str()));
    params.push(integer_param(details.game_id));
    assert(params.deep_view() =~= insert_executable_query(details@).params);
    with_params("INSERT INTO executable_details (executable_name, game_id) VALUES (?1, ?2)", params)
}

/// Builds the statement that reads what the statistics of an interval are made from.
pub fn statistics_statement(start: &str, end: &str) -> (s: Statement)
    ensures
        s@ == statistics_query(start@, end@),
{
    let mut params: Vec<Param> = Vec::new();
    params.push(text_param(start));
    params.push(text_param(end));
    assert(params.deep_view() =~= statistics_query(start@, end@).params);
    with_params("SELECT date, status, minutes_played FROM logs WHERE date BETWEEN ?1 AND ?2", params)
}

} // verus!
