//! What holds of the operations for every input, proved from their
//! contracts and from the functions that the contracts speak of.

use vstd::prelude::*;
use crate::listing::{in_order, sorted_by};
use crate::query::{SortColumn, SortDirection};
use crate::records::{DashboardStatistics, LogDataView, LogView, StoreError};
use crate::repository::{
    add_log_changes,
    add_log_plan,
    delete_answer,
    unit_ended,
    unit_issued,
};
use crate::statements::{
    begin_query,
    rollback_query,
    commit_query,
    find_game_query,
    insert_game_query,
    insert_log_query,
};
use crate::statistics::{
    counts_as_completed,
    counts_as_played,
    games_completed,
    games_played,
    in_range,
    minutes_in,
    minutes_readable,
    statistics_of,
    total_minutes,
};
use crate::text::{text_le, text_le_from};
use crate::values::{AnswerView, CellView, RowView, StatementView};

verus! {

/// The statement stores a row in the table of games.
pub open spec fn adds_game(statement: StatementView) -> bool {
    statement.sql == "INSERT INTO logged_games (id, title, cover_id) VALUES (?1, ?2, ?3)"@
}

/// The statement stores a row in the table of logs.
pub open spec fn adds_log(statement: StatementView) -> bool {
    statement.sql
        == "INSERT INTO logs (game_id, date, rating, notes, status, minutes_played) VALUES (?1, ?2, ?3, ?4, ?5, ?6)"@
}

/// The statement leaves every stored row as it is: it opens or keeps a unit
/// of work, looks a game up, or stores a new row.
pub open spec fn leaves_stored_rows(statement: StatementView) -> bool {
    statement == begin_query() || statement == commit_query() || adds_game(statement)
        || adds_log(statement) || (exists|id: int| statement == find_game_query(id))
}

/// The number of statements of a sequence that store a game.
pub open spec fn games_added(statements: Seq<StatementView>) -> int
    decreases statements.len(),
{
    if statements.len() == 0 {
        0
    } else {
        games_added(statements.drop_last()) + if adds_game(statements.last()) {
            1int
        } else {
            0int
        }
    }
}

/// The number of statements of a sequence that store a log.
pub open spec fn logs_added(statements: Seq<StatementView>) -> int
    decreases statements.len(),
{
    if statements.len() == 0 {
        0
    } else {
        logs_added(statements.drop_last()) + if adds_log(statements.last()) {
            1int
        } else {
            0int
        }
    }
}

proof fn lemma_statement_texts()
    ensures
        !adds_game(begin_query()),
        !adds_log(begin_query()),
        !adds_game(commit_query()),
        !adds_log(commit_query()),
        forall|id: int| !adds_game(#[trigger] find_game_query(id)),
        forall|id: int| !adds_log(#[trigger] find_game_query(id)),
        forall|data: LogDataView| !adds_game(#[trigger] insert_log_query(data)),
        forall|data: LogDataView| adds_log(#[trigger] insert_log_query(data)),
        forall|data: LogDataView| adds_game(#[trigger] insert_game_query(data.game)),
        forall|data: LogDataView| !adds_log(#[trigger] insert_game_query(data.game)),
{
    reveal_strlit("BEGIN IMMEDIATE");
    reveal_strlit("COMMIT");
    reveal_strlit("SELECT id FROM logged_games WHERE id = ?1");
    reveal_strlit("INSERT INTO logged_games (id, title, cover_id) VALUES (?1, ?2, ?3)");
    reveal_strlit(
        "INSERT INTO logs (game_id, date, rating, notes, status, minutes_played) VALUES (?1, ?2, ?3, ?4, ?5, ?6)",
    );
    let game = "INSERT INTO logged_games (id, title, cover_id) VALUES (?1, ?2, ?3)"@;
    let log =
        "INSERT INTO logs (game_id, date, rating, notes, status, minutes_played) VALUES (?1, ?2, ?3, ?4, ?5, ?6)"@;
    assert(game.len() != log.len());
    assert("BEGIN IMMEDIATE"@.len() != game.len());
    assert("BEGIN IMMEDIATE"@.len() != log.len());
    assert("COMMIT"@.len() != game.len());
    assert("COMMIT"@.len() != log.len());
    assert("SELECT id FROM logged_games WHERE id = ?1"@.len() != game.len());
    assert("SELECT id FROM logged_games WHERE id = ?1"@.len() != log.len());
}

proof fn lemma_count_one_more(statements: Seq<StatementView>, next: StatementView)
    ensures
        games_added(statements.push(next)) == games_added(statements) + if adds_game(next) {
            1int
        } else {
            0int
        },
        logs_added(statements.push(next)) == logs_added(statements) + if adds_log(next) {
            1int
        } else {
            0int
        },
{
    assert(statements.push(next).drop_last() =~= statements);
}

/// Adding a log whose game is new to the store asks the engine to store
/// exactly one game, that of the log, and exactly one log, and to change or
/// remove nothing that is stored.
pub proof fn law_new_game_adds_one_game_and_one_log(data: LogDataView)
    ensures
        games_added(add_log_plan(data, false)) == 1,
        logs_added(add_log_plan(data, false)) == 1,
        add_log_changes(data, false) == seq![insert_game_query(data.game), insert_log_query(data)],
        forall|i: int|
            0 <= i < add_log_plan(data, false).len() ==> leaves_stored_rows(
                #[trigger] add_log_plan(data, false)[i],
            ),
{
    lemma_statement_texts();
    let empty = Seq::<StatementView>::empty();
    let s1 = empty.push(begin_query());
    let s2 = s1.push(find_game_query(data.game.id));
    let s3 = s2.push(insert_game_query(data.game));
    let s4 = s3.push(insert_log_query(data));
    let s5 = s4.push(commit_query());
    lemma_count_one_more(empty, begin_query());
    lemma_count_one_more(s1, find_game_query(data.game.id));
    lemma_count_one_more(s2, insert_game_query(data.game));
    lemma_count_one_more(s3, insert_log_query(data));
    lemma_count_one_more(s4, commit_query());
    assert(add_log_plan(data, false) =~= s5);
}

/// Adding a log whose game the store knows asks the engine to store no game
/// and exactly one log, and to change or remove nothing that is stored: the
/// game stays as it is.
pub proof fn law_known_game_adds_one_log_only(data: LogDataView)
    ensures
        games_added(add_log_plan(data, true)) == 0,
        logs_added(add_log_plan(data, true)) == 1,
        add_log_changes(data, true) == seq![insert_log_query(data)],
        forall|i: int|
            0 <= i < add_log_plan(data, true).len() ==> leaves_stored_rows(
                #[trigger] add_log_plan(data, true)[i],
            ),
{
    lemma_statement_texts();
    let empty = Seq::<StatementView>::empty();
    let s1 = empty.push(begin_query());
    let s2 = s1.push(find_game_query(data.game.id));
    let s3 = s2.push(insert_log_query(data));
    let s4 = s3.push(commit_query());
    lemma_count_one_more(empty, begin_query());
    lemma_count_one_more(s1, find_game_query(data.game.id));
    lemma_count_one_more(s2, insert_log_query(data));
    lemma_count_one_more(s3, commit_query());
    assert(add_log_plan(data, true) =~= s4);
}

/// What a new log says of a game that the store knows plays no part: two
/// logs that differ in the title and the cover of their game alone ask the
/// same of the engine.
pub proof fn law_known_game_fields_play_no_part(a: LogDataView, b: LogDataView)
    requires
        a.game.id == b.game.id,
        a.date == b.date,
        a.rating == b.rating,
        a.notes == b.notes,
        a.status == b.status,
        a.minutes_played == b.minutes_played,
    ensures
        add_log_plan(a, true) == add_log_plan(b, true),
{
    assert(insert_log_query(a).params =~= insert_log_query(b).params);
}

proof fn lemma_nothing_in_range(rows: Seq<RowView>, start: Seq<char>, end: Seq<char>)
    requires
        forall|i: int| 0 <= i < rows.len() ==> !in_range(#[trigger] rows[i], start, end),
    ensures
        total_minutes(rows, start, end) == 0,
        games_played(rows, start, end) == 0,
        games_completed(rows, start, end) == 0,
    decreases rows.len(),
{
    if rows.len() > 0 {
        let init = rows.drop_last();
        assert(forall|i: int| 0 <= i < init.len() ==> init[i] == rows[i]);
        lemma_nothing_in_range(init, start, end);
        assert(!in_range(rows[rows.len() - 1], start, end));
    }
}

/// Over an interval that holds no log, all three totals are zero.
pub proof fn law_empty_range_gives_zero(rows: Seq<RowView>, start: Seq<char>, end: Seq<char>)
    requires
        forall|i: int| 0 <= i < rows.len() ==> !in_range(#[trigger] rows[i], start, end),
    ensures
        statistics_of(rows, start, end) == Ok::<DashboardStatistics, StoreError>(
            DashboardStatistics {
                total_minutes_played: 0,
                total_games_played: 0,
                total_games_completed: 0,
            },
        ),
{
    lemma_nothing_in_range(rows, start, end);
}

proof fn lemma_readable_one_more(
    rows: Seq<RowView>,
    row: RowView,
    start: Seq<char>,
    end: Seq<char>,
)
    ensures
        minutes_readable(rows.push(row), start, end) == (minutes_readable(rows, start, end) && (
        counts_as_played(row, start, end) ==> minutes_in(row[2]) is Some)),
{
    let more = rows.push(row);
    assert(forall|i: int| 0 <= i < rows.len() ==> more[i] == rows[i]);
    assert(more[rows.len() as int] == row);
    if minutes_readable(more, start, end) {
        assert forall|i: int|
            0 <= i < rows.len() && counts_as_played(#[trigger] rows[i], start, end) implies minutes_in(
            rows[i][2],
        ) is Some by {
            assert(more[i] == rows[i]);
        }
    }
}

/// A log on the wishlist adds nothing to any total: the statistics with it
/// are the statistics without it.
pub proof fn law_wishlist_is_left_out(
    rows: Seq<RowView>,
    row: RowView,
    start: Seq<char>,
    end: Seq<char>,
)
    requires
        row.len() == 3,
        row[1] == CellView::Text("wishlist"@),
    ensures
        total_minutes(rows.push(row), start, end) == total_minutes(rows, start, end),
        games_played(rows.push(row), start, end) == games_played(rows, start, end),
        games_completed(rows.push(row), start, end) == games_completed(rows, start, end),
        statistics_of(rows.push(row), start, end) == statistics_of(rows, start, end),
{
    reveal_strlit("wishlist");
    reveal_strlit("completed");
    assert("wishlist"@.len() != "completed"@.len());
    assert(rows.push(row).drop_last() =~= rows);
    lemma_readable_one_more(rows, row, start, end);
}

/// A completed log of the interval counts as played and as completed: it
/// adds its minutes to the minutes played, one to the games played and one
/// to the games completed.
pub proof fn law_completed_counts_as_played_too(
    rows: Seq<RowView>,
    row: RowView,
    minutes: int,
    start: Seq<char>,
    end: Seq<char>,
)
    requires
        in_range(row, start, end),
        row[1] == CellView::Text("completed"@),
        row[2] == CellView::Integer(minutes),
    ensures
        counts_as_played(row, start, end),
        counts_as_completed(row, start, end),
        total_minutes(rows.push(row), start, end) == total_minutes(rows, start, end) + minutes,
        games_played(rows.push(row), start, end) == games_played(rows, start, end) + 1,
        games_completed(rows.push(row), start, end) == games_completed(rows, start, end) + 1,
        minutes_readable(rows.push(row), start, end) == minutes_readable(rows, start, end),
{
    reveal_strlit("wishlist");
    reveal_strlit("completed");
    assert("wishlist"@.len() != "completed"@.len());
    assert(rows.push(row).drop_last() =~= rows);
    lemma_readable_one_more(rows, row, start, end);
}

proof fn lemma_text_le_from_chains(a: Seq<char>, b: Seq<char>, c: Seq<char>, i: int)
    requires
        0 <= i,
        text_le_from(a, b, i),
        text_le_from(b, c, i),
    ensures
        text_le_from(a, c, i),
    decreases a.len() - i,
{
    if i < a.len() {
        if a[i] == b[i] && b[i] == c[i] {
            lemma_text_le_from_chains(a, b, c, i + 1);
        }
    }
}

/// The order on text carries over: what comes no later than a second text
/// comes no later than any text that the second one does not come after.
pub proof fn law_text_order_chains(a: Seq<char>, b: Seq<char>, c: Seq<char>)
    requires
        text_le(a, b),
        text_le(b, c),
    ensures
        text_le(a, c),
{
    lemma_text_le_from_chains(a, b, c, 0);
}

proof fn lemma_in_order_chains(
    a: LogView,
    b: LogView,
    c: LogView,
    column: SortColumn,
    direction: SortDirection,
)
    requires
        in_order(a, b, column, direction),
        in_order(b, c, column, direction),
    ensures
        in_order(a, c, column, direction),
{
    match direction {
        SortDirection::Ascending => {
            match column {
                SortColumn::CreatedAt => law_text_order_chains(
                    a.created_at,
                    b.created_at,
                    c.created_at,
                ),
                SortColumn::UpdatedAt => law_text_order_chains(
                    a.updated_at,
                    b.updated_at,
                    c.updated_at,
                ),
                SortColumn::Date => law_text_order_chains(a.date, b.date, c.date),
                SortColumn::Notes => law_text_order_chains(a.notes, b.notes, c.notes),
                SortColumn::Status => law_text_order_chains(a.status, b.status, c.status),
                SortColumn::Title => law_text_order_chains(
                    a.game.title,
                    b.game.title,
                    c.game.title,
                ),
                _ => {},
            }
        },
        SortDirection::Descending => {
            match column {
                SortColumn::CreatedAt => law_text_order_chains(
                    c.created_at,
                    b.created_at,
                    a.created_at,
                ),
                SortColumn::UpdatedAt => law_text_order_chains(
                    c.updated_at,
                    b.updated_at,
                    a.updated_at,
                ),
                SortColumn::Date => law_text_order_chains(c.date, b.date, a.date),
                SortColumn::Notes => law_text_order_chains(c.notes, b.notes, a.notes),
                SortColumn::Status => law_text_order_chains(c.status, b.status, a.status),
                SortColumn::Title => law_text_order_chains(
                    c.game.title,
                    b.game.title,
                    a.game.title,
                ),
                _ => {},
            }
        },
    }
}

/// In a sorted listing every log may stand before every later one, not only
/// before its neighbour. For the latest logs this says that their dates
/// never go up from one log to any log after it.
pub proof fn law_sorted_throughout(
    logs: Seq<LogView>,
    column: SortColumn,
    direction: SortDirection,
    i: int,
    j: int,
)
    requires
        sorted_by(logs, column, direction),
        0 <= i < j < logs.len(),
    ensures
        in_order(logs[i], logs[j], column, direction),
    decreases j - i,
{
    if j > i + 1 {
        law_sorted_throughout(logs, column, direction, i, j - 1);
        assert(in_order(logs[j - 1], logs[j - 1 + 1], column, direction));
        lemma_in_order_chains(logs[i], logs[j - 1], logs[j], column, direction);
    } else {
        assert(in_order(logs[i], logs[i + 1], column, direction));
    }
}

/// A removal succeeds whatever number of rows the engine removed. So a
/// second removal of the same log, to which the engine answers that it
/// removed none, succeeds as the first did.
pub proof fn law_delete_succeeds_whatever_was_removed(first: int, second: int, id: i32)
    ensures
        delete_answer(AnswerView::Changed(first), id) == Ok::<i32, StoreError>(id),
        delete_answer(AnswerView::Changed(second), id) == delete_answer(
            AnswerView::Changed(first),
            id,
        ),
{
}

/// A unit of work is kept or undone as a whole. Where it returns an id, the
/// engine was handed the plan, whose last statement keeps the unit. Where
/// it returns an error, the last statement that the engine was handed
/// undoes the unit, unless the engine failed to open it, and then nothing
/// else was handed over.
pub proof fn law_unit_is_kept_or_undone(
    plan: Seq<StatementView>,
    reached: int,
    answers: Seq<AnswerView>,
    r: Result<i32, StoreError>,
)
    requires
        plan.len() >= 3,
        unit_ended(plan, reached, answers, r),
    ensures
        r is Ok ==> unit_issued(plan, reached, true) == plan,
        r is Err && reached == 1 ==> answers[0] is Failed && unit_issued(plan, reached, false)
            == seq![plan[0]],
        r is Err && reached > 1 ==> unit_issued(plan, reached, false).last() == rollback_query(),
{
    if r is Err && reached == 1 {
        assert(plan.take(1) =~= seq![plan[0]]);
    }
}

} // verus!
