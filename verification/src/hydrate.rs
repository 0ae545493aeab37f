//! From result rows to records. A row is taken as the engine gave it and is
//! read column by column; a row that the statement cannot have produced ends
//! the operation in an error, and so does a log without its game.

use vstd::prelude::*;
use crate::records::{
    executable_answer,
    game_answer,
    log_answer,
    logs_answer,
    ExecutableDetails,
    ExecutableDetailsView,
    Game,
    GameView,
    Log,
    LogView,
    StoreError,
};
use crate::text::text_eq;
use crate::values::{cell_as_i32, cell_as_text, read_i32, read_text, Cell, RowView};

verus! {

/// The eight columns of the log itself can be read from a joined row.
pub open spec fn log_columns_readable(row: RowView) -> bool {
    &&& row.len() == 11
    &&& cell_as_i32(row[0]) is Some
    &&& cell_as_text(row[1]) is Some
    &&& cell_as_text(row[2]) is Some
    &&& cell_as_text(row[3]) is Some
    &&& cell_as_i32(row[4]) is Some
    &&& cell_as_text(row[5]) is Some
    &&& cell_as_text(row[6]) is Some
    &&& cell_as_i32(row[7]) is Some
}

/// The three columns starting at `at` can be read as a game.
pub open spec fn game_columns_readable(row: RowView, at: int) -> bool {
    &&& 0 <= at
    &&& at + 3 <= row.len()
    &&& cell_as_i32(row[at]) is Some
    &&& cell_as_text(row[at + 1]) is Some
    &&& cell_as_text(row[at + 2]) is Some
}

/// The game in the three columns starting at `at`.
pub open spec fn game_at(row: RowView, at: int) -> GameView {
    GameView {
        id: cell_as_i32(row[at])->Some_0,
        title: cell_as_text(row[at + 1])->Some_0,
        cover_id: cell_as_text(row[at + 2])->Some_0,
    }
}

/// The log that a joined row stands for. The join did not resolve where the
/// game's id is missing: that is a fault in the data, told apart from a row
/// that cannot be read.
pub open spec fn log_of_row(row: RowView) -> Result<LogView, StoreError> {
    if !log_columns_readable(row) {
        Err(StoreError::QueryExecution)
    } else if row[8] is Null {
        Err(StoreError::DataIntegrity)
    } else if !game_columns_readable(row, 8) {
        Err(StoreError::QueryExecution)
    } else {
        Ok(
            LogView {
                id: cell_as_i32(row[0])->Some_0,
                created_at: cell_as_text(row[1])->Some_0,
                updated_at: cell_as_text(row[2])->Some_0,
                date: cell_as_text(row[3])->Some_0,
                rating: cell_as_i32(row[4])->Some_0,
                notes: cell_as_text(row[5])->Some_0,
                status: cell_as_text(row[6])->Some_0,
                minutes_played: cell_as_i32(row[7])->Some_0,
                game: game_at(row, 8),
            },
        )
    }
}

/// The logs that joined rows stand for, in the order of the rows; the error
/// of the first row that has one.
pub open spec fn logs_of_rows(rows: Seq<RowView>) -> Result<Seq<LogView>, StoreError>
    decreases rows.len(),
{
    if rows.len() == 0 {
        Ok(Seq::empty())
    } else {
        match logs_of_rows(rows.drop_last()) {
            Err(e) => Err(e),
            Ok(logs) => match log_of_row(rows.last()) {
                Err(e) => Err(e),
                Ok(log) => Ok(logs.push(log)),
            },
        }
    }
}

/// The game that a row of the table of games stands for.
pub open spec fn game_of_row(row: RowView) -> Result<GameView, StoreError> {
    if row.len() == 3 && game_columns_readable(row, 0) {
        Ok(game_at(row, 0))
    } else {
        Err(StoreError::QueryExecution)
    }
}

/// The mapping that a row of the table of executables stands for.
pub open spec fn executable_of_row(row: RowView) -> Result<ExecutableDetailsView, StoreError> {
    if row.len() == 2 && cell_as_text(row[0]) is Some && cell_as_i32(row[1]) is Some {
        Ok(
            ExecutableDetailsView {
                name: cell_as_text(row[0])->Some_0,
                game_id: cell_as_i32(row[1])->Some_0,
            },
        )
    } else {
        Err(StoreError::QueryExecution)
    }
}

/// What a lookup of the log `id` comes to, given the rows that the engine
/// found: no row means that there is no such log; the first row must be
/// that log.
pub open spec fn found_log(rows: Seq<RowView>, id: int) -> Result<LogView, StoreError> {
    if rows.len() == 0 {
        Err(StoreError::NotFound)
    } else {
        match log_of_row(rows[0]) {
            Err(e) => Err(e),
            Ok(log) => if log.id == id {
                Ok(log)
            } else {
                Err(StoreError::QueryExecution)
            },
        }
    }
}

/// What a lookup of the game `id` comes to, given the rows that the engine
/// found.
pub open spec fn found_game(rows: Seq<RowView>, id: int) -> Result<GameView, StoreError> {
    if rows.len() == 0 {
        Err(StoreError::NotFound)
    } else {
        match game_of_row(rows[0]) {
            Err(e) => Err(e),
            Ok(game) => if game.id == id {
                Ok(game)
            } else {
                Err(StoreError::QueryExecution)
            },
        }
    }
}

/// What a lookup of the executable `name` comes to, given the rows that the
/// engine found. Where several mappings bear the name, the first one counts.
pub open spec fn found_executable(rows: Seq<RowView>, name: Seq<char>) -> Result<
    ExecutableDetailsView,
    StoreError,
> {
    if rows.len() == 0 {
        Err(StoreError::NotFound)
    } else {
        match executable_of_row(rows[0]) {
            Err(e) => Err(e),
            Ok(details) => if details.name == name {
                Ok(details)
            } else {
                Err(StoreError::QueryExecution)
            },
        }
    }
}

/// Reads the game in the three columns starting at `at`.
fn read_game(row: &Vec<Cell>, at: usize) -> (r: Option<Game>)
    requires
        at + 3 <= row.len(),
    ensures
        r is Some == game_columns_readable(row.deep_view(), at as int),
        r matches Some(game) ==> game@ == game_at(row.deep_view(), at as int),
{
    let ghost cells = row.deep_view();
    assert(cells[at as int] == row@[at as int]@);
    assert(cells[at + 1] == row@[at + 1]@);
    assert(cells[at + 2] == row@[at + 2]@);
    let id = match read_i32(&row[at]) {
        Some(v) => v,
        None => {
            return None;
        },
    };
    let title = match read_text(&row[at + 1]) {
        Some(s) => s,
        None => {
            return None;
        },
    };
    let cover_id = match read_text(&row[at + 2]) {
        Some(s) => s,
        None => {
            return None;
        },
    };
    Some(Game { id, title, cover_id })
}

/// Reads a joined row as a log with its game.
pub fn decode_log(row: &Vec<Cell>) -> (r: Result<Log, StoreError>)
    ensures
        log_answer(r) == log_of_row(row.deep_view()),
{
    if row.len() != 11 {
        return Err(StoreError::QueryExecution);
    }
    let ghost cells = row.deep_view();
    assert(forall|k: int| 0 <= k < 11 ==> cells[k] == (#[trigger] row@[k])@);
    let id = match read_i32(&row[0]) {
        Some(v) => v,
        None => {
            return Err(StoreError::QueryExecution);
        },
    };
    let created_at = match read_text(&row[1]) {
        Some(s) => s,
        None => {
            return Err(StoreError::QueryExecution);
        },
    };
    let updated_at = match read_text(&row[2]) {
        Some(s) => s,
        None => {
            return Err(StoreError::QueryExecution);
        },
    };
    let date = match read_text(&row[3]) {
        Some(s) => s,
        None => {
            return Err(StoreError::QueryExecution);
        },
    };
    let rating = match read_i32(&row[4]) {
        Some(v) => v,
        None => {
            return Err(StoreError::QueryExecution);
        },
    };
    let notes = match read_text(&row[5]) {
        Some(s) => s,
        None => {
            return Err(StoreError::QueryExecution);
        },
    };
    let status = match read_text(&row[6]) {
        Some(s) => s,
        None => {
            return Err(StoreError::QueryExecution);
        },
    };
    let minutes_played = match read_i32(&row[7]) {
        Some(v) => v,
        None => {
            return Err(StoreError::QueryExecution);
        },
    };
    match &row[8] {
        Cell::Null => {
            return Err(StoreError::DataIntegrity);
        },
        _ => {},
    }
    match read_game(row, 8) {
        Some(game) => Ok(
            Log { id, created_at, updated_at, date, rating, notes, status, minutes_played, game },
        ),
        None => Err(StoreError::QueryExecution),
    }
}

/// Reads joined rows as logs, in the order of the rows.
pub fn decode_logs(rows: &Vec<Vec<Cell>>) -> (r: Result<Vec<Log>, StoreError>)
    ensures
        logs_answer(r) == logs_of_rows(rows.deep_view()),
        r matches Err(e) ==> e == StoreError::QueryExecution || e == StoreError::DataIntegrity,
{
    let ghost all = rows.deep_view();
    let mut logs: Vec<Log> = Vec::new();
    let mut i: usize = 0;
    assert(all.take(0) =~= Seq::<RowView>::empty());
    assert(logs.deep_view() =~= Seq::<LogView>::empty());
    while i < rows.len()
        invariant
            i <= rows.len(),
            all == rows.deep_view(),
            logs_of_rows(all.take(i as int)) == Ok::<Seq<LogView>, StoreError>(logs.deep_view()),
        decreases rows.len() - i,
    {
        let ghost before = logs.deep_view();
        proof {
            assert(all.take(i as int + 1).drop_last() =~= all.take(i as int));
            assert(all.take(i as int + 1).last() == rows@[i as int].deep_view());
        }
        match decode_log(&rows[i]) {
            Ok(log) => {
                let ghost seen = log@;
                logs.push(log);
                assert(logs.deep_view() =~= before.push(seen));
            },
            Err(e) => {
                proof {
                    lemma_failure_stays(all, i as int + 1);
                }
                return Err(e);
            },
        }
        i = i + 1;
    }
    assert(all.take(rows.len() as int) =~= all);
    Ok(logs)
}

/// Once a row has failed, the rows after it do not change the error.
pub proof fn lemma_failure_stays(rows: Seq<RowView>, n: int)
    requires
        0 <= n <= rows.len(),
        logs_of_rows(rows.take(n)) is Err,
    ensures
        logs_of_rows(rows) == logs_of_rows(rows.take(n)),
    decreases rows.len() - n,
{
    if n == rows.len() {
        assert(rows.take(n) =~= rows);
    } else {
        assert(rows.take(n + 1).drop_last() =~= rows.take(n));
        lemma_failure_stays(rows, n + 1);
    }
}

/// Picks the log `id` out of the rows that a lookup by id found.
pub fn log_from_rows(rows: &Vec<Vec<Cell>>, id: i32) -> (r: Result<Log, StoreError>)
    ensures
        log_answer(r) == found_log(rows.deep_view(), id as int),
{
    if rows.len() == 0 {
        return Err(StoreError::NotFound);
    }
    assert(rows.deep_view()[0] == rows@[0].deep_view());
    let log = decode_log(&rows[0])?;
    if log.id == id {
        Ok(log)
    } else {
        Err(StoreError::QueryExecution)
    }
}

/// Picks the game `id` out of the rows that a lookup by id found.
pub fn game_from_rows(rows: &Vec<Vec<Cell>>, id: i32) -> (r: Result<Game, StoreError>)
    ensures
        game_answer(r) == found_game(rows.deep_view(), id as int),
{
    if rows.len() == 0 {
        return Err(StoreError::NotFound);
    }
    assert(rows.deep_view()[0] == rows@[0].deep_view());
    let row = &rows[0];
    if row.len() != 3 {
        return Err(StoreError::QueryExecution);
    }
    match read_game(row, 0) {
        Some(game) => {
            if game.id == id {
                Ok(game)
            } else {
                Err(StoreError::QueryExecution)
            }
        },
        None => Err(StoreError::QueryExecution),
    }
}

/// Picks the mapping of the executable `name` out of the rows that a lookup
/// by name found.
pub fn executable_from_rows(rows: &Vec<Vec<Cell>>, name: &str) -> (r: Result<
    ExecutableDetails,
    StoreError,
>)
    ensures
        executable_answer(r) == found_executable(rows.deep_view(), name@),
{
    if rows.len() == 0 {
        return Err(StoreError::NotFound);
    }
    assert(rows.deep_view()[0] == rows@[0].deep_view());
    let row = &rows[0];
    if row.len() != 2 {
        return Err(StoreError::QueryExecution);
    }
    assert(row.deep_view()[0] == row@[0]@);
    assert(row.deep_view()[1] == row@[1]@);
    let found = match read_text(&row[0]) {
        Some(s) => s,
        None => {
            return Err(StoreError::QueryExecution);
        },
    };
    let game_id = match read_i32(&row[1]) {
        Some(v) => v,
        None => {
            return Err(StoreError::QueryExecution);
        },
    };
    if text_eq(found.as_str(), name) {
        Ok(ExecutableDetails { name: found, game_id })
    } else {
        Err(StoreError::QueryExecution)
    }
}

} // verus!
