//! Totals over the logs of a closed date interval.
//!
//! The engine narrows the logs down to the interval; the totals are made
//! here, from one row per log that holds its date, its status and its
//! minutes. Dates are compared as text, so they must be written in a form
//! that sorts as it reads, such as `2024-01-31`.

use vstd::prelude::*;
use crate::records::{DashboardStatistics, StoreError};
use crate::text::{text_eq, text_le, text_no_later};
use crate::values::{Cell, CellView, RowView};

verus! {

/// The row is a log whose date lies in the closed interval from `start` to
/// `end`.
pub open spec fn in_range(row: RowView, start: Seq<char>, end: Seq<char>) -> bool {
    &&& row.len() == 3
    &&& row[0] is Text
    &&& text_le(start, row[0]->Text_0)
    &&& text_le(row[0]->Text_0, end)
}

/// The row counts as a game played: it lies in the interval and has a
/// status other than `wishlist`.
pub open spec fn counts_as_played(row: RowView, start: Seq<char>, end: Seq<char>) -> bool {
    &&& in_range(row, start, end)
    &&& !(row[1] is Null)
    &&& row[1] != CellView::Text("wishlist"@)
}

/// The row counts as a game completed: it lies in the interval and has the
/// status `completed`.
pub open spec fn counts_as_completed(row: RowView, start: Seq<char>, end: Seq<char>) -> bool {
    &&& in_range(row, start, end)
    &&& row[1] == CellView::Text("completed"@)
}

/// The minutes that a cell adds to a total: its number, nothing where it is
/// empty, and no answer where it holds anything else.
pub open spec fn minutes_in(cell: CellView) -> Option<int> {
    match cell {
        CellView::Integer(v) => Some(v),
        CellView::Null => Some(0),
        _ => None,
    }
}

/// The minutes that a row adds to the total of minutes played.
pub open spec fn minutes_added(row: RowView, start: Seq<char>, end: Seq<char>) -> int {
    if counts_as_played(row, start, end) && minutes_in(row[2]) is Some {
        minutes_in(row[2])->Some_0
    } else {
        0
    }
}

/// The minutes of every row that counts as played can be read.
pub open spec fn minutes_readable(rows: Seq<RowView>, start: Seq<char>, end: Seq<char>) -> bool {
    forall|i: int|
        0 <= i < rows.len() && counts_as_played(#[trigger] rows[i], start, end) ==> minutes_in(
            rows[i][2],
        ) is Some
}

/// The sum of the minutes of the rows that count as played.
pub open spec fn total_minutes(rows: Seq<RowView>, start: Seq<char>, end: Seq<char>) -> int
    decreases rows.len(),
{
    if rows.len() == 0 {
        0
    } else {
        total_minutes(rows.drop_last(), start, end) + minutes_added(rows.last(), start, end)
    }
}

/// The number of rows that count as played.
pub open spec fn games_played(rows: Seq<RowView>, start: Seq<char>, end: Seq<char>) -> int
    decreases rows.len(),
{
    if rows.len() == 0 {
        0
    } else {
        games_played(rows.drop_last(), start, end) + if counts_as_played(rows.last(), start, end) {
            1int
        } else {
            0int
        }
    }
}

/// The number of rows that count as completed.
pub open spec fn games_completed(rows: Seq<RowView>, start: Seq<char>, end: Seq<char>) -> int
    decreases rows.len(),
{
    if rows.len() == 0 {
        0
    } else {
        games_completed(rows.drop_last(), start, end) + if counts_as_completed(
            rows.last(),
            start,
            end,
        ) {
            1int
        } else {
            0int
        }
    }
}

/// The three totals fit in the fields of [`DashboardStatistics`].
pub open spec fn totals_fit(minutes: int, played: int, completed: int) -> bool {
    &&& i32::MIN <= minutes <= i32::MAX
    &&& played <= i32::MAX
    &&& completed <= i32::MAX
}

/// The statistics of the interval, given one row per log: the totals, if
/// the minutes can be read and the totals fit.
pub open spec fn statistics_of(rows: Seq<RowView>, start: Seq<char>, end: Seq<char>) -> Result<
    DashboardStatistics,
    StoreError,
> {
    if minutes_readable(rows, start, end) && totals_fit(
        total_minutes(rows, start, end),
        games_played(rows, start, end),
        games_completed(rows, start, end),
    ) {
        Ok(
            DashboardStatistics {
                total_minutes_played: total_minutes(rows, start, end) as i32,
                total_games_played: games_played(rows, start, end) as i32,
                total_games_completed: games_completed(rows, start, end) as i32,
            },
        )
    } else {
        Err(StoreError::QueryExecution)
    }
}

/// Tells whether a row is a log whose date lies in the interval.
pub fn row_in_range(row: &Vec<Cell>, start: &str, end: &str) -> (r: bool)
    ensures
        r == in_range(row.deep_view(), start@, end@),
{
    if row.len() != 3 {
        return false;
    }
    assert(row.deep_view()[0] == row@[0]@);
    match &row[0] {
        Cell::Text(date) => text_no_later(start, date.as_str()) && text_no_later(
            date.as_str(),
            end,
        ),
        _ => false,
    }
}

/// Tells whether a status keeps a log out of the games played.
fn status_counts(cell: &Cell) -> (r: bool)
    ensures
        r == (!(cell@ is Null) && cell@ != CellView::Text("wishlist"@)),
{
    match cell {
        Cell::Null => false,
        Cell::Text(status) => !text_eq(status.as_str(), "wishlist"),
        _ => true,
    }
}

/// Tells whether a status is `completed`.
fn status_completed(cell: &Cell) -> (r: bool)
    ensures
        r == (cell@ == CellView::Text("completed"@)),
{
    match cell {
        Cell::Text(status) => text_eq(status.as_str(), "completed"),
        _ => false,
    }
}

/// Makes the statistics of the interval from one row per log.
pub fn statistics_from_rows(rows: &Vec<Vec<Cell>>, start: &str, end: &str) -> (r: Result<
    DashboardStatistics,
    StoreError,
>)
    ensures
        r == statistics_of(rows.deep_view(), start@, end@),
{
    let ghost all = rows.deep_view();
    let mut minutes: i128 = 0;
    let mut played: usize = 0;
    let mut completed: usize = 0;
    let mut i: usize = 0;
    assert(all.take(0) =~= Seq::<RowView>::empty());
    while i < rows.len()
        invariant
            i <= rows.len(),
            all == rows.deep_view(),
            minutes == total_minutes(all.take(i as int), start@, end@),
            played == games_played(all.take(i as int), start@, end@),
            completed == games_completed(all.take(i as int), start@, end@),
            played <= i,
            completed <= i,
            -(i * 0x8000_0000_0000_0000) <= minutes <= i * 0x8000_0000_0000_0000,
            forall|k: int|
                0 <= k < i && counts_as_played(#[trigger] all[k], start@, end@) ==> minutes_in(
                    all[k][2],
                ) is Some,
        decreases rows.len() - i,
    {
        let row = &rows[i];
        proof {
            assert(all.take(i as int + 1).drop_last() =~= all.take(i as int));
            assert(all.take(i as int + 1).last() == all[i as int]);
            assert(all[i as int] == row.deep_view());
        }
        if row_in_range(row, start, end) {
            assert(row.deep_view()[1] == row@[1]@);
            assert(row.deep_view()[2] == row@[2]@);
            if status_counts(&row[1]) {
                match &row[2] {
                    Cell::Integer(v) => {
                        minutes = minutes + (*v as i128);
                    },
                    Cell::Null => {},
                    _ => {
                        return Err(StoreError::QueryExecution);
                    },
                }
                played = played + 1;
            }
            if status_completed(&row[1]) {
                completed = completed + 1;
            }
        }
        i = i + 1;
    }
    assert(all.take(rows.len() as int) =~= all);
    if -2147483648 <= minutes && minutes <= 2147483647 && played <= 2147483647 && completed
        <= 2147483647 {
        Ok(
            DashboardStatistics {
                total_minutes_played: minutes as i32,
                total_games_played: played as i32,
                total_games_completed: completed as i32,
            },
        )
    } else {
        Err(StoreError::QueryExecution)
    }
}

} // verus!
