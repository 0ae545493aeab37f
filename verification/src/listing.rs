//! What a listing of logs must look like, and the check that holds the rows
//! of the engine to it: the order that was asked for, the filter that was
//! asked for, and no more rows than were asked for.

use vstd::prelude::*;
use crate::hydrate::{decode_logs, logs_of_rows};
use crate::query::{SortColumn, SortDirection};
use crate::records::{logs_answer, Log, LogView, StoreError};
use crate::text::{text_eq, text_le, text_no_later};
use crate::values::{Cell, RowView};

verus! {

/// By the given column, `a` comes no later than `b`: numbers by their value,
/// text by code point.
pub open spec fn key_le(a: LogView, b: LogView, column: SortColumn) -> bool {
    match column {
        SortColumn::Id => a.id <= b.id,
        SortColumn::CreatedAt => text_le(a.created_at, b.created_at),
        SortColumn::UpdatedAt => text_le(a.updated_at, b.updated_at),
        SortColumn::Date => text_le(a.date, b.date),
        SortColumn::Rating => a.rating <= b.rating,
        SortColumn::Notes => text_le(a.notes, b.notes),
        SortColumn::Status => text_le(a.status, b.status),
        SortColumn::MinutesPlayed => a.minutes_played <= b.minutes_played,
        SortColumn::GameId => a.game.id <= b.game.id,
        SortColumn::Title => text_le(a.game.title, b.game.title),
    }
}

/// `first` may stand before `second` in a listing sorted as given.
pub open spec fn in_order(
    first: LogView,
    second: LogView,
    column: SortColumn,
    direction: SortDirection,
) -> bool {
    match direction {
        SortDirection::Ascending => key_le(first, second, column),
        SortDirection::Descending => key_le(second, first, column),
    }
}

/// Each log of the listing may stand before the next one.
pub open spec fn sorted_by(logs: Seq<LogView>, column: SortColumn, direction: SortDirection) -> bool {
    forall|i: int|
        0 <= i < logs.len() - 1 ==> in_order(#[trigger] logs[i], logs[i + 1], column, direction)
}

/// The listing keeps to the filter: an empty filter admits every log, any
/// other admits the logs whose status it names.
pub open spec fn within_filter(logs: Seq<LogView>, filter: Seq<Seq<char>>) -> bool {
    filter.len() == 0 || forall|i: int|
        0 <= i < logs.len() ==> filter.contains((#[trigger] logs[i]).status)
}

/// The largest number of logs that a listing limited to `amount` may hold.
pub open spec fn room(amount: int) -> int {
    if amount > 0 {
        amount
    } else {
        0
    }
}

/// What a sorted, filtered listing comes to, given the rows of the engine:
/// the logs of the rows if they are sorted as asked and keep to the filter.
pub open spec fn checked_listing(
    rows: Seq<RowView>,
    column: SortColumn,
    direction: SortDirection,
    filter: Seq<Seq<char>>,
) -> Result<Seq<LogView>, StoreError> {
    match logs_of_rows(rows) {
        Err(e) => Err(e),
        Ok(logs) => if sorted_by(logs, column, direction) && within_filter(logs, filter) {
            Ok(logs)
        } else {
            Err(StoreError::QueryExecution)
        },
    }
}

/// What a listing of the latest logs comes to, given the rows of the engine:
/// the latest date first, within the filter, and at most `amount` logs.
pub open spec fn checked_recent(rows: Seq<RowView>, amount: int, filter: Seq<Seq<char>>) -> Result<
    Seq<LogView>,
    StoreError,
> {
    match checked_listing(rows, SortColumn::Date, SortDirection::Descending, filter) {
        Err(e) => Err(e),
        Ok(logs) => if logs.len() <= room(amount) {
            Ok(logs)
        } else {
            Err(StoreError::QueryExecution)
        },
    }
}

/// Tells whether `a` comes no later than `b` by the given column.
pub fn key_no_later(a: &Log, b: &Log, column: SortColumn) -> (r: bool)
    ensures
        r == key_le(a@, b@, column),
{
    match column {
        SortColumn::Id => a.id <= b.id,
        SortColumn::CreatedAt => text_no_later(a.created_at.as_str(), b.created_at.as_str()),
        SortColumn::UpdatedAt => text_no_later(a.updated_at.as_str(), b.updated_at.as_str()),
        SortColumn::Date => text_no_later(a.date.as_str(), b.date.as_str()),
        SortColumn::Rating => a.rating <= b.rating,
        SortColumn::Notes => text_no_later(a.notes.as_str(), b.notes.as_str()),
        SortColumn::Status => text_no_later(a.status.as_str(), b.status.as_str()),
        SortColumn::MinutesPlayed => a.minutes_played <= b.minutes_played,
        SortColumn::GameId => a.game.id <= b.game.id,
        SortColumn::Title => text_no_later(a.game.title.as_str(), b.game.title.as_str()),
    }
}

/// Tells whether a listing is sorted as given.
pub fn is_sorted(logs: &Vec<Log>, column: SortColumn, direction: SortDirection) -> (r: bool)
    ensures
        r == sorted_by(logs.deep_view(), column, direction),
{
    if logs.len() < 2 {
        return true;
    }
    let ghost views = logs.deep_view();
    let mut i: usize = 0;
    while i < logs.len() - 1
        invariant
            logs.len() >= 2,
            i <= logs.len() - 1,
            views == logs.deep_view(),
            forall|k: int| 0 <= k < i ==> in_order(#[trigger] views[k], views[k + 1], column, direction),
        decreases logs.len() - i,
    {
        assert(views[i as int] == logs@[i as int]@);
        assert(views[i + 1] == logs@[i + 1]@);
        let fine = match direction {
            SortDirection::Ascending => key_no_later(&logs[i], &logs[i + 1], column),
            SortDirection::Descending => key_no_later(&logs[i + 1], &logs[i], column),
        };
        if !fine {
            return false;
        }
        i = i + 1;
    }
    true
}

/// Tells whether a filter names the status.
pub fn filter_names(filter: &Vec<String>, status: &str) -> (r: bool)
    ensures
        r == filter.deep_view().contains(status@),
{
    let ghost words = filter.deep_view();
    let mut i: usize = 0;
    while i < filter.len()
        invariant
            i <= filter.len(),
            words == filter.deep_view(),
            forall|k: int| 0 <= k < i ==> words[k] != status@,
        decreases filter.len() - i,
    {
        assert(words[i as int] == filter@[i as int]@);
        if text_eq(filter[i].as_str(), status) {
            return true;
        }
        i = i + 1;
    }
    false
}

/// Tells whether a listing keeps to a filter.
pub fn keeps_to_filter(logs: &Vec<Log>, filter: &Vec<String>) -> (r: bool)
    ensures
        r == within_filter(logs.deep_view(), filter.deep_view()),
{
    if filter.len() == 0 {
        return true;
    }
    let ghost views = logs.deep_view();
    let mut i: usize = 0;
    while i < logs.len()
        invariant
            i <= logs.len(),
            filter.len() > 0,
            views == logs.deep_view(),
            forall|k: int| 0 <= k < i ==> filter.deep_view().contains((#[trigger] views[k]).status),
        decreases logs.len() - i,
    {
        assert(views[i as int] == logs@[i as int]@);
        if !filter_names(filter, logs[i].status.as_str()) {
            return false;
        }
        i = i + 1;
    }
    true
}

/// Reads the rows of a sorted, filtered listing and holds them to what was
/// asked for.
pub fn listed_logs_from_rows(
    rows: &Vec<Vec<Cell>>,
    column: SortColumn,
    direction: SortDirection,
    filter: &Vec<String>,
) -> (r: Result<Vec<Log>, StoreError>)
    ensures
        logs_answer(r) == checked_listing(rows.deep_view(), column, direction, filter.deep_view()),
        r matches Err(e) ==> e == StoreError::QueryExecution || e == StoreError::DataIntegrity,
{
    let logs = decode_logs(rows)?;
    if is_sorted(&logs, column, direction) && keeps_to_filter(&logs, filter) {
        Ok(logs)
    } else {
        Err(StoreError::QueryExecution)
    }
}

/// Reads the rows of a listing of the latest logs and holds them to what
/// was asked for.
pub fn recent_logs_from_rows(rows: &Vec<Vec<Cell>>, amount: i32, filter: &Vec<String>) -> (r:
    Result<Vec<Log>, StoreError>)
    ensures
        logs_answer(r) == checked_recent(rows.deep_view(), amount as int, filter.deep_view()),
        r matches Err(e) ==> e == StoreError::QueryExecution || e == StoreError::DataIntegrity,
{
    let logs = listed_logs_from_rows(rows, SortColumn::Date, SortDirection::Descending, filter)?;
    let bound: usize = if amount > 0 {
        amount as usize
    } else {
        0
    };
    if logs.len() <= bound {
        Ok(logs)
    } else {
        Err(StoreError::QueryExecution)
    }
}

} // verus!
