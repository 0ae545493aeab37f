//! Assembly of the statements that read logs: the allow-lists for what is
//! spliced into their text, and the text itself.
//!
//! A row value is always bound to a placeholder. A sort column, a sort
//! direction and the statuses of a filter cannot be bound the same way, so
//! each is looked up in a fixed list before a word of that list is spliced.

use vstd::prelude::*;
use vstd::string::*;
use crate::records::StoreError;
use crate::text::text_eq;
use crate::values::{Param, ParamView, Statement, StatementView};

verus! {

/// A column by which a listing can be sorted: one of the log itself, the id
/// of its game, or the title of its game.
#[derive(Debug, Clone, Copy, PartialEq, Eq, Structural)]
pub enum SortColumn {
    Id,
    CreatedAt,
    UpdatedAt,
    Date,
    Rating,
    Notes,
    Status,
    MinutesPlayed,
    GameId,
    Title,
}

/// The direction of a sort.
#[derive(Debug, Clone, Copy, PartialEq, Eq, Structural)]
pub enum SortDirection {
    Ascending,
    Descending,
}

/// A sort column as it stands in the text of a statement: with its table.
pub open spec fn column_name(c: SortColumn) -> Seq<char> {
    match c {
        SortColumn::Id => "logs.id"@,
        SortColumn::CreatedAt => "logs.created_at"@,
        SortColumn::UpdatedAt => "logs.updated_at"@,
        SortColumn::Date => "logs.date"@,
        SortColumn::Rating => "logs.rating"@,
        SortColumn::Notes => "logs.notes"@,
        SortColumn::Status => "logs.status"@,
        SortColumn::MinutesPlayed => "logs.minutes_played"@,
        SortColumn::GameId => "logs.game_id"@,
        SortColumn::Title => "logged_games.title"@,
    }
}

/// The sort column that a caller's word names, if it names one.
pub open spec fn column_named(s: Seq<char>) -> Option<SortColumn> {
    if s == "id"@ {
        Some(SortColumn::Id)
    } else if s == "created_at"@ {
        Some(SortColumn::CreatedAt)
    } else if s == "updated_at"@ {
        Some(SortColumn::UpdatedAt)
    } else if s == "date"@ {
        Some(SortColumn::Date)
    } else if s == "rating"@ {
        Some(SortColumn::Rating)
    } else if s == "notes"@ {
        Some(SortColumn::Notes)
    } else if s == "status"@ {
        Some(SortColumn::Status)
    } else if s == "minutes_played"@ {
        Some(SortColumn::MinutesPlayed)
    } else if s == "game_id"@ {
        Some(SortColumn::GameId)
    } else if s == "title"@ {
        Some(SortColumn::Title)
    } else {
        None
    }
}

/// The keyword of a sort direction.
pub open spec fn direction_word(d: SortDirection) -> Seq<char> {
    match d {
        SortDirection::Ascending => "ASC"@,
        SortDirection::Descending => "DESC"@,
    }
}

/// The sort direction that a caller's word names: `ASC` or `DESC`, written so.
pub open spec fn direction_named(s: Seq<char>) -> Option<SortDirection> {
    if s == "ASC"@ {
        Some(SortDirection::Ascending)
    } else if s == "DESC"@ {
        Some(SortDirection::Descending)
    } else {
        None
    }
}

/// The statuses that a filter may name.
pub open spec fn known_status(s: Seq<char>) -> bool {
    s == "playing"@ || s == "completed"@ || s == "wishlist"@ || s == "backlog"@ || s
        == "dropped"@
}

/// Every status of the filter is a known one.
pub open spec fn statuses_known(filter: Seq<Seq<char>>) -> bool {
    forall|i: int| 0 <= i < filter.len() ==> known_status(#[trigger] filter[i])
}

/// Looks a caller's word up among the sort columns.
pub fn parse_sort_column(s: &str) -> (r: Option<SortColumn>)
    ensures
        r == column_named(s@),
{
    if text_eq(s, "id") {
        Some(SortColumn::Id)
    } else if text_eq(s, "created_at") {
        Some(SortColumn::CreatedAt)
    } else if text_eq(s, "updated_at") {
        Some(SortColumn::UpdatedAt)
    } else if text_eq(s, "date") {
        Some(SortColumn::Date)
    } else if text_eq(s, "rating") {
        Some(SortColumn::Rating)
    } else if text_eq(s, "notes") {
        Some(SortColumn::Notes)
    } else if text_eq(s, "status") {
        Some(SortColumn::Status)
    } else if text_eq(s, "minutes_played") {
        Some(SortColumn::MinutesPlayed)
    } else if text_eq(s, "game_id") {
        Some(SortColumn::GameId)
    } else if text_eq(s, "title") {
        Some(SortColumn::Title)
    } else {
        None
    }
}

/// Looks a caller's word up among the sort directions.
pub fn parse_sort_direction(s: &str) -> (r: Option<SortDirection>)
    ensures
        r == direction_named(s@),
{
    if text_eq(s, "ASC") {
        Some(SortDirection::Ascending)
    } else if text_eq(s, "DESC") {
        Some(SortDirection::Descending)
    } else {
        None
    }
}

/// Tells whether a word is a status that a filter may name.
pub fn is_known_status(s: &str) -> (r: bool)
    ensures
        r == known_status(s@),
{
    text_eq(s, "playing") || text_eq(s, "completed") || text_eq(s, "wishlist") || text_eq(
        s,
        "backlog",
    ) || text_eq(s, "dropped")
}

/// Tells whether every status of a filter is a known one.
pub fn all_statuses_known(filter: &Vec<String>) -> (r: bool)
    ensures
        r == statuses_known(filter.deep_view()),
{
    let mut i: usize = 0;
    while i < filter.len()
        invariant
            i <= filter.len(),
            forall|k: int| 0 <= k < i ==> known_status(#[trigger] filter.deep_view()[k]),
        decreases filter.len() - i,
    {
        assert(filter.deep_view()[i as int] == filter@[i as int]@);
        if !is_known_status(filter[i].as_str()) {
            return false;
        }
        i = i + 1;
    }
    true
}

/// The statuses of a filter, each between single quotes, with commas
/// between them.
pub open spec fn quoted_list(filter: Seq<Seq<char>>) -> Seq<char>
    decreases filter.len(),
{
    if filter.len() == 0 {
        Seq::empty()
    } else {
        quoted_list(filter.drop_last()) + (if filter.len() > 1 {
            ","@
        } else {
            Seq::empty()
        }) + "'"@ + filter.last() + "'"@
    }
}

/// The restriction that a filter puts on a listing. An empty filter puts
/// none: every log is eligible.
pub open spec fn status_clause(filter: Seq<Seq<char>>) -> Seq<char> {
    if filter.len() == 0 {
        Seq::empty()
    } else {
        " WHERE logs.status IN ("@ + quoted_list(filter) + ")"@
    }
}

/// The columns of a log joined with those of its game. A log whose game is
/// missing still yields a row, with empty game columns.
pub open spec fn joined_logs_sql() -> Seq<char> {
    "SELECT logs.id, logs.created_at, logs.updated_at, logs.date, logs.rating, logs.notes, logs.status, logs.minutes_played, logged_games.id, logged_games.title, logged_games.cover_id FROM logs LEFT JOIN logged_games ON logged_games.id = logs.game_id"@
}

/// The statement that lists the latest logs: at most `amount` of them, the
/// latest date first.
pub open spec fn recent_logs_query(amount: int, filter: Seq<Seq<char>>) -> StatementView {
    StatementView {
        sql: joined_logs_sql() + status_clause(filter) + " ORDER BY "@ + column_name(
            SortColumn::Date,
        ) + " DESC LIMIT ?1"@,
        params: seq![ParamView::Integer(amount)],
    }
}

/// The statement that lists all logs, sorted by one column.
pub open spec fn logs_query(
    column: SortColumn,
    direction: SortDirection,
    filter: Seq<Seq<char>>,
) -> StatementView {
    StatementView {
        sql: joined_logs_sql() + status_clause(filter) + " ORDER BY "@ + column_name(column) + " "@
            + direction_word(direction),
        params: Seq::empty(),
    }
}

/// A sort column as it is spliced.
fn column_text(column: SortColumn) -> (r: &'static str)
    ensures
        r@ == column_name(column),
{
    match column {
        SortColumn::Id => "logs.id",
        SortColumn::CreatedAt => "logs.created_at",
        SortColumn::UpdatedAt => "logs.updated_at",
        SortColumn::Date => "logs.date",
        SortColumn::Rating => "logs.rating",
        SortColumn::Notes => "logs.notes",
        SortColumn::Status => "logs.status",
        SortColumn::MinutesPlayed => "logs.minutes_played",
        SortColumn::GameId => "logs.game_id",
        SortColumn::Title => "logged_games.title",
    }
}

/// The keyword of a sort direction, as it is spliced.
fn direction_text(direction: SortDirection) -> (r: &'static str)
    ensures
        r@ == direction_word(direction),
{
    match direction {
        SortDirection::Ascending => "ASC",
        SortDirection::Descending => "DESC",
    }
}

/// Appends the restriction of a filter to the text of a statement.
fn append_status_clause(sql: &mut String, filter: &Vec<String>)
    ensures
        final(sql)@ == old(sql)@ + status_clause(filter.deep_view()),
{
    let ghost start = sql@;
    let ghost words = filter.deep_view();
    if filter.len() == 0 {
        assert(start + Seq::<char>::empty() =~= start);
        return ;
    }
    sql.append(" WHERE logs.status IN (");
    let ghost head = sql@;
    let mut i: usize = 0;
    while i < filter.len()
        invariant
            i <= filter.len(),
            words == filter.deep_view(),
            sql@ == head + quoted_list(words.take(i as int)),
        decreases filter.len() - i,
    {
        let ghost before = quoted_list(words.take(i as int));
        if i > 0 {
            sql.append(",");
        }
        sql.append("'");
        sql.append(filter[i].as_str());
        sql.append("'");
        proof {
            let next = words.take(i as int + 1);
            assert(next.drop_last() =~= words.take(i as int));
            assert(next.last() == filter@[i as int]@);
            let comma = if i > 0 {
                ","@
            } else {
                Seq::<char>::empty()
            };
            assert(quoted_list(next) == before + comma + "'"@ + next.last() + "'"@);
            assert(sql@ =~= head + quoted_list(next));
        }
        i = i + 1;
    }
    sql.append(")");
    proof {
        assert(words.take(filter.len() as int) =~= words);
        assert(sql@ =~= start + status_clause(words));
    }
}

/// Builds the statement that lists the latest logs. The filter is refused
/// if it names a status that is not known; nothing else is looked at.
pub fn recent_logs_statement(amount: i32, filter: &Vec<String>) -> (r: Result<
    Statement,
    StoreError,
>)
    ensures
        !statuses_known(filter.deep_view()) ==> r == Err::<Statement, StoreError>(
            StoreError::InvalidQuery,
        ),
        statuses_known(filter.deep_view()) ==> r is Ok && r->Ok_0@ == recent_logs_query(
            amount as int,
            filter.deep_view(),
        ),
{
    if !all_statuses_known(filter) {
        return Err(StoreError::InvalidQuery);
    }
    let mut sql = String::from_str(
        "SELECT logs.id, logs.created_at, logs.updated_at, logs.date, logs.rating, logs.notes, logs.status, logs.minutes_played, logged_games.id, logged_games.title, logged_games.cover_id FROM logs LEFT JOIN logged_games ON logged_games.id = logs.game_id",
    );
    append_status_clause(&mut sql, filter);
    sql.append(" ORDER BY ");
    sql.append(column_text(SortColumn::Date));
    sql.append(" DESC LIMIT ?1");
    let mut params: Vec<Param> = Vec::new();
    params.push(Param::Integer(amount as i64));
    let statement = Statement { sql, params };
    assert(statement@.params =~= seq![ParamView::Integer(amount as int)]);
    Ok(statement)
}

/// Builds the statement that lists all logs sorted by a column. The request
/// is refused if the column or the direction is not one of the known words,
/// or if the filter names a status that is not known.
pub fn logs_statement(sort_by: &str, sort_order: &str, filter: &Vec<String>) -> (r: Result<
    Statement,
    StoreError,
>)
    ensures
        logs_request_valid(sort_by@, sort_order@, filter.deep_view()) ==> r is Ok && r->Ok_0@
            == logs_query(
            column_named(sort_by@)->Some_0,
            direction_named(sort_order@)->Some_0,
            filter.deep_view(),
        ),
        !logs_request_valid(sort_by@, sort_order@, filter.deep_view()) ==> r == Err::<
            Statement,
            StoreError,
        >(StoreError::InvalidQuery),
{
    let column = match parse_sort_column(sort_by) {
        Some(c) => c,
        None => {
            return Err(StoreError::InvalidQuery);
        },
    };
    let direction = match parse_sort_direction(sort_order) {
        Some(d) => d,
        None => {
            return Err(StoreError::InvalidQuery);
        },
    };
    if !all_statuses_known(filter) {
        return Err(StoreError::InvalidQuery);
    }
    let mut sql = String::from_str(
        "SELECT logs.id, logs.created_at, logs.updated_at, logs.date, logs.rating, logs.notes, logs.status, logs.minutes_played, logged_games.id, logged_games.title, logged_games.cover_id FROM logs LEFT JOIN logged_games ON logged_games.id = logs.game_id",
    );
    append_status_clause(&mut sql, filter);
    sql.append(" ORDER BY ");
    sql.append(column_text(column));
    sql.append(" ");
    sql.append(direction_text(direction));
    let statement = Statement { sql, params: Vec::new() };
    assert(statement@.params =~= Seq::<ParamView>::empty());
    Ok(statement)
}

/// A listing can be asked for: the column and the direction are known
/// words, and so is every status of the filter.
pub open spec fn logs_request_valid(
    sort_by: Seq<char>,
    sort_order: Seq<char>,
    filter: Seq<Seq<char>>,
) -> bool {
    column_named(sort_by) is Some && direction_named(sort_order) is Some && statuses_known(filter)
}

} // verus!
