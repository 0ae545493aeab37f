//! The handle to the store, and the calls into the SQLite engine.
//!
//! Nothing is proved of the engine. What the library knows of a call is what
//! it handed over and what came back: the handle keeps a ghost record of
//! both, so that the contract of an operation can say what was asked of the
//! engine and what the operation makes of each answer.

use vstd::prelude::*;
use crate::records::StoreError;
use crate::values::{
    cell_from_raw,
    cell_of_raw,
    cells_of_raw,
    AnswerView,
    Cell,
    Param,
    RawCell,
    Statement,
    StatementView,
};

verus! {

/// `rusqlite::Connection`, an open connection to a database. It is carried
/// through; nothing is known of what it holds.
#[verifier::external_type_specification]
#[verifier::external_body]
pub struct ExConnection(rusqlite::Connection);

/// `rusqlite::Error`, the engine's account of a failure. It is told apart
/// from success and then let go.
#[verifier::external_type_specification]
#[verifier::external_body]
pub struct ExEngineError(rusqlite::Error);

/// Calls `rusqlite::Connection::open`, which opens the database file at
/// `location` and creates it if it is absent. Nothing is claimed of the
/// outcome.
#[verifier::external_body]
fn open_connection(location: &str) -> (r: Result<rusqlite::Connection, rusqlite::Error>) {
    rusqlite::Connection::open(location)
}

/// Calls `rusqlite::Connection::execute_batch`, which runs the statements of
/// `sql` one after the other. Nothing is claimed of the outcome.
#[verifier::external_body]
fn run_batch(conn: &rusqlite::Connection, sql: &str) -> (r: Result<(), rusqlite::Error>) {
    conn.execute_batch(sql)
}

/// Calls `rusqlite::Connection::execute` with the parameters bound in
/// order, each as the engine's value of its kind. On success the engine
/// reports how many rows it changed; nothing is claimed of that number.
#[verifier::external_body]
fn run_statement(conn: &rusqlite::Connection, sql: &str, params: &Vec<Param>) -> (r: Result<
    usize,
    rusqlite::Error,
>) {
    conn.execute(sql, rusqlite::params_from_iter(params.iter().map(|p| match p {
        Param::Integer(v) => rusqlite::types::Value::Integer(*v),
        Param::Text(s) => rusqlite::types::Value::Text(s.clone()),
    })))
}

/// Calls `rusqlite::Connection::prepare` and `rusqlite::Statement::query_map`
/// with the parameters bound in order, each as the engine's value of its
/// kind, and collects every row. Each column of a row, from left to right,
/// is asked for through `rusqlite::Row::get` as an integer that may be
/// absent, as text and as bytes, and what `get` refuses is left out. Nothing
/// is claimed of the rows.
#[verifier::external_body]
fn run_query(conn: &rusqlite::Connection, sql: &str, params: &Vec<Param>) -> (r: Result<
    Vec<Vec<RawCell>>,
    rusqlite::Error,
>) {
    let mut prepared = conn.prepare(sql)?;
    let width = prepared.column_count();
    let bound = rusqlite::params_from_iter(params.iter().map(|p| match p {
        Param::Integer(v) => rusqlite::types::Value::Integer(*v),
        Param::Text(s) => rusqlite::types::Value::Text(s.clone()),
    }));
    let rows = prepared.query_map(bound, |row| {
        Ok((0..width).map(|i| RawCell {
            integer: row.get(i).ok(),
            text: row.get(i).ok(),
            blob: row.get(i).ok(),
        }).collect())
    })?;
    rows.collect()
}

/// Calls `rusqlite::Connection::last_insert_rowid`: the row id of the latest
/// successful insert on this connection. Nothing is claimed of it.
#[verifier::external_body]
fn latest_row_id(conn: &rusqlite::Connection) -> (r: i64) {
    conn.last_insert_rowid()
}

/// The exclusively owned handle to the store. Every operation takes it by
/// mutable reference, so access is serialised by whoever owns it.
///
/// Beside the connection it keeps, as ghost state, where the store is, what
/// was asked of the engine and what the engine answered.
pub struct Store {
    conn: rusqlite::Connection,
    place: Ghost<Seq<char>>,
    journal: Ghost<Seq<StatementView>>,
    answers: Ghost<Seq<AnswerView>>,
}

/// Makes the cells of one row, in order.
fn cells_of(row: &Vec<RawCell>) -> (cells: Vec<Cell>)
    ensures
        cells.deep_view() == cells_of_raw(row.deep_view()),
{
    let mut cells: Vec<Cell> = Vec::new();
    let mut i: usize = 0;
    while i < row.len()
        invariant
            i <= row.len(),
            cells@.len() == i,
            forall|k: int| 0 <= k < i ==> (#[trigger] cells@[k])@ == cell_of_raw(row@[k]@),
        decreases row.len() - i,
    {
        cells.push(cell_from_raw(&row[i]));
        i = i + 1;
    }
    assert(cells.deep_view() =~= cells_of_raw(row.deep_view()));
    cells
}

/// Makes the rows of cells, in order.
fn rows_of(rows: &Vec<Vec<RawCell>>) -> (out: Vec<Vec<Cell>>)
    ensures
        out@.len() == rows@.len(),
        forall|k: int|
            0 <= k < rows@.len() ==> (#[trigger] out@[k]).deep_view() == cells_of_raw(
                rows@[k].deep_view(),
            ),
{
    let mut out: Vec<Vec<Cell>> = Vec::new();
    let mut i: usize = 0;
    while i < rows.len()
        invariant
            i <= rows.len(),
            out@.len() == i,
            forall|k: int|
                0 <= k < i ==> (#[trigger] out@[k]).deep_view() == cells_of_raw(
                    rows@[k].deep_view(),
                ),
        decreases rows.len() - i,
    {
        out.push(cells_of(&rows[i]));
        i = i + 1;
    }
    out
}

/// What the engine answered to a statement that changes rows.
pub open spec fn change_answer(r: Result<usize, StoreError>) -> AnswerView {
    match r {
        Ok(changed) => AnswerView::Changed(changed as int),
        Err(_) => AnswerView::Failed,
    }
}

/// What the engine answered to a statement that reads rows.
pub open spec fn rows_answer(r: Result<Vec<Vec<Cell>>, StoreError>) -> AnswerView {
    match r {
        Ok(rows) => AnswerView::Rows(rows.deep_view()),
        Err(_) => AnswerView::Failed,
    }
}

impl Store {
    /// The location that the store was opened at.
    pub closed spec fn location(&self) -> Seq<char> {
        self.place@
    }

    /// The statements handed to the engine through this handle so far, the
    /// oldest first. The first is the batch that set up the tables.
    pub closed spec fn issued(&self) -> Seq<StatementView> {
        self.journal@
    }

    /// What the engine answered since the store was opened, the oldest
    /// answer first: one answer for each statement after the first, and one
    /// for each time it was asked for the row id of the latest insert.
    pub closed spec fn answered(&self) -> Seq<AnswerView> {
        self.answers@
    }

    /// Opens the store at `location` and hands the batch `schema` to the
    /// engine.
    pub(crate) fn open(location: &str, schema: &Statement) -> (r: Result<Store, StoreError>)
        ensures
            r matches Ok(store) ==> {
                &&& store.location() == location@
                &&& store.issued() == seq![schema@]
                &&& store.answered() == Seq::<AnswerView>::empty()
            },
            r matches Err(e) ==> e == StoreError::StorageInit,
    {
        let conn = match open_connection(location) {
            Ok(conn) => conn,
            Err(_) => {
                return Err(StoreError::StorageInit);
            },
        };
        let place: Ghost<Seq<char>> = Ghost(location@);
        let journal: Ghost<Seq<StatementView>> = Ghost(Seq::empty().push(schema@));
        let answers: Ghost<Seq<AnswerView>> = Ghost(Seq::empty());
        match run_batch(&conn, schema.sql.as_str()) {
            Ok(_) => Ok(Store { conn, place, journal, answers }),
            Err(_) => Err(StoreError::StorageInit),
        }
    }

    /// Hands a statement that changes rows to the engine and returns the
    /// number of rows that the engine says it changed.
    pub(crate) fn run(&mut self, statement: &Statement) -> (r: Result<usize, StoreError>)
        ensures
            final(self).location() == old(self).location(),
            final(self).issued() == old(self).issued().push(statement@),
            final(self).answered() == old(self).answered().push(change_answer(r)),
            r matches Err(e) ==> e == StoreError::QueryExecution,
    {
        let outcome = run_statement(&self.conn, statement.sql.as_str(), &statement.params);
        let r = match outcome {
            Ok(changed) => Ok(changed),
            Err(_) => Err(StoreError::QueryExecution),
        };
        self.journal = Ghost(self.journal@.push(statement@));
        self.answers = Ghost(self.answers@.push(change_answer(r)));
        r
    }

    /// Hands a statement that reads rows to the engine and returns the rows.
    pub(crate) fn fetch(&mut self, statement: &Statement) -> (r: Result<
        Vec<Vec<Cell>>,
        StoreError,
    >)
        ensures
            final(self).location() == old(self).location(),
            final(self).issued() == old(self).issued().push(statement@),
            final(self).answered() == old(self).answered().push(rows_answer(r)),
            r matches Err(e) ==> e == StoreError::QueryExecution,
    {
        let outcome = run_query(&self.conn, statement.sql.as_str(), &statement.params);
        let r = match outcome {
            Ok(rows) => Ok(rows_of(&rows)),
            Err(_) => Err(StoreError::QueryExecution),
        };
        self.journal = Ghost(self.journal@.push(statement@));
        self.answers = Ghost(self.answers@.push(rows_answer(r)));
        r
    }

    /// Asks the engine for the row id that it gave to the latest row
    /// inserted through this handle.
    pub(crate) fn latest_row_id(&mut self) -> (r: i64)
        ensures
            final(self).location() == old(self).location(),
            final(self).issued() == old(self).issued(),
            final(self).answered() == old(self).answered().push(AnswerView::RowId(r as int)),
    {
        let r = latest_row_id(&self.conn);
        self.answers = Ghost(self.answers@.push(AnswerView::RowId(r as int)));
        r
    }
}

} // verus!
