//! The operations on the store. Each one assembles its statement, hands it
//! to the engine through the handle, and makes its answer from what came
//! back. Its contract says which statements went to the engine, and what its
//! answer is for each answer of the engine.

use vstd::prelude::*;
use crate::engine::{change_answer, rows_answer, Store};
use crate::hydrate::{
    executable_from_rows,
    found_executable,
    found_game,
    found_log,
    game_from_rows,
    log_from_rows,
};
use crate::listing::{
    checked_listing,
    checked_recent,
    listed_logs_from_rows,
    recent_logs_from_rows,
    room,
    sorted_by,
    within_filter,
};
use crate::query::{
    column_named,
    direction_named,
    logs_query,
    logs_request_valid,
    logs_statement,
    parse_sort_column,
    parse_sort_direction,
    recent_logs_query,
    recent_logs_statement,
    statuses_known,
    SortColumn,
    SortDirection,
};
use crate::records::{
    executable_answer,
    ExecutableDetailsView,
    GameView,
    LogView,
    game_answer,
    log_answer,
    logs_answer,
    DashboardStatistics,
    ExecutableDetails,
    Game,
    Log,
    LogData,
    LogDataView,
    LogUpdateData,
    StoreError,
};
use crate::statements::{
    begin_query,
    begin_statement,
    commit_query,
    commit_statement,
    delete_log_query,
    delete_log_statement,
    executable_query,
    executable_statement,
    find_game_query,
    find_game_statement,
    insert_executable_query,
    insert_executable_statement,
    insert_game_query,
    insert_game_statement,
    insert_log_query,
    insert_log_statement,
    log_by_id_query,
    log_by_id_statement,
    logged_game_query,
    logged_game_statement,
    rollback_query,
    rollback_statement,
    schema_query,
    schema_statement,
    statistics_query,
    statistics_statement,
    update_log_query,
    update_log_statement,
};
use crate::statistics::{statistics_from_rows, statistics_of};
use crate::values::{AnswerView, Cell, Statement, StatementView};

verus! {

/// From `before` to `after` nothing was asked of the engine.
pub open spec fn nothing_asked(before: Store, after: Store) -> bool {
    &&& after.location() == before.location()
    &&& after.issued() == before.issued()
    &&& after.answered() == before.answered()
}

/// From `before` to `after` the engine was handed `statement` and nothing
/// else, and gave one answer, the last of `after.answered()`.
pub open spec fn asked_once(before: Store, after: Store, statement: StatementView) -> bool {
    &&& after.location() == before.location()
    &&& after.issued() == before.issued().push(statement)
    &&& after.answered().len() == before.answered().len() + 1
    &&& after.answered().drop_last() =~= before.answered()
}

/// The answers that the engine gave from `before` to `after`.
pub open spec fn new_answers(before: Store, after: Store) -> Seq<AnswerView> {
    after.answered().skip(before.answered().len() as int)
}

/// From `before` to `after` the store stayed where it is and the answers
/// of the engine were added to, none taken away.
pub open spec fn answers_added(before: Store, after: Store) -> bool {
    &&& after.location() == before.location()
    &&& before.answered().len() <= after.answered().len()
    &&& after.answered().take(before.answered().len() as int) =~= before.answered()
}

/// Opens the store at `location`, creating the file if it is absent, and
/// sets up its tables, each only if it is absent. The directory that holds
/// the file must exist. The handle that comes back is a handle to the
/// store at `location`; so far the engine was handed the batch that sets up
/// the tables.
pub fn initialize_database(location: &str) -> (r: Result<Store, StoreError>)
    ensures
        r matches Ok(store) ==> {
            &&& store.location() == location@
            &&& store.issued() == seq![schema_query()]
            &&& store.answered() == Seq::<AnswerView>::empty()
        },
        r matches Err(e) ==> e == StoreError::StorageInit,
{
    let schema = schema_statement();
    Store::open(location, &schema)
}

/// What a lookup of the executable `name` comes to, given the answer of the
/// engine.
pub open spec fn executable_lookup(answer: AnswerView, name: Seq<char>) -> Result<
    ExecutableDetailsView,
    StoreError,
> {
    match answer {
        AnswerView::Rows(rows) => found_executable(rows, name),
        _ => Err(StoreError::QueryExecution),
    }
}

/// Looks up the game that an executable belongs to.
pub fn get_executable_details(store: &mut Store, executable_name: &str) -> (r: Result<
    ExecutableDetails,
    StoreError,
>)
    ensures
        asked_once(*old(store), *final(store), executable_query(executable_name@)),
        executable_answer(r) == executable_lookup(
            final(store).answered().last(),
            executable_name@,
        ),
        r matches Ok(details) ==> details.name@ == executable_name@,
        r matches Err(e) ==> e == StoreError::NotFound || e == StoreError::QueryExecution,
{
    let statement = executable_statement(executable_name);
    let rows = store.fetch(&statement)?;
    executable_from_rows(&rows, executable_name)
}

/// What the statistics of an interval come to, given the answer of the
/// engine.
pub open spec fn statistics_lookup(answer: AnswerView, start: Seq<char>, end: Seq<char>) -> Result<
    DashboardStatistics,
    StoreError,
> {
    match answer {
        AnswerView::Rows(rows) => statistics_of(rows, start, end),
        _ => Err(StoreError::QueryExecution),
    }
}

/// Totals over the logs whose date lies in the closed interval from
/// `start_date` to `end_date`: the minutes played and the number of logs,
/// leaving out those on the wishlist, and the number of logs completed.
pub fn get_dashboard_statistics(store: &mut Store, start_date: String, end_date: String) -> (r:
    Result<DashboardStatistics, StoreError>)
    ensures
        asked_once(*old(store), *final(store), statistics_query(start_date@, end_date@)),
        r == statistics_lookup(final(store).answered().last(), start_date@, end_date@),
        r matches Err(e) ==> e == StoreError::QueryExecution,
{
    let statement = statistics_statement(start_date.as_str(), end_date.as_str());
    let rows = store.fetch(&statement)?;
    statistics_from_rows(&rows, start_date.as_str(), end_date.as_str())
}

/// What a listing of the latest logs comes to, given the answer of the
/// engine.
pub open spec fn recent_lookup(answer: AnswerView, amount: int, filter: Seq<Seq<char>>) -> Result<
    Seq<LogView>,
    StoreError,
> {
    match answer {
        AnswerView::Rows(rows) => checked_recent(rows, amount, filter),
        _ => Err(StoreError::QueryExecution),
    }
}

/// Lists the latest logs: at most `amount` of them, the latest date first,
/// and only those whose status the filter names, unless the filter is
/// empty. With no room for any log nothing is asked of the engine.
pub fn get_recent_logs(store: &mut Store, amount: i32, filter: Vec<String>) -> (r: Result<
    Vec<Log>,
    StoreError,
>)
    ensures
        r == Err::<Vec<Log>, StoreError>(StoreError::InvalidQuery) <==> !statuses_known(
            filter.deep_view(),
        ),
        !statuses_known(filter.deep_view()) || amount <= 0 ==> nothing_asked(
            *old(store),
            *final(store),
        ),
        statuses_known(filter.deep_view()) && amount <= 0 ==> r is Ok && r->Ok_0@.len() == 0,
        statuses_known(filter.deep_view()) && amount > 0 ==> {
            &&& asked_once(
                *old(store),
                *final(store),
                recent_logs_query(amount as int, filter.deep_view()),
            )
            &&& logs_answer(r) == recent_lookup(
                final(store).answered().last(),
                amount as int,
                filter.deep_view(),
            )
        },
        r matches Ok(logs) ==> {
            &&& logs@.len() <= room(amount as int)
            &&& sorted_by(logs.deep_view(), SortColumn::Date, SortDirection::Descending)
            &&& within_filter(logs.deep_view(), filter.deep_view())
        },
        r matches Err(e) ==> e == StoreError::InvalidQuery || e == StoreError::QueryExecution || e
            == StoreError::DataIntegrity,
{
    let statement = recent_logs_statement(amount, &filter)?;
    if amount <= 0 {
        let none: Vec<Log> = Vec::new();
        assert(none.deep_view() =~= Seq::empty());
        return Ok(none);
    }
    let rows = store.fetch(&statement)?;
    recent_logs_from_rows(&rows, amount, &filter)
}

/// What a sorted listing comes to, given the answer of the engine.
pub open spec fn listing_lookup(
    answer: AnswerView,
    column: SortColumn,
    direction: SortDirection,
    filter: Seq<Seq<char>>,
) -> Result<Seq<LogView>, StoreError> {
    match answer {
        AnswerView::Rows(rows) => checked_listing(rows, column, direction, filter),
        _ => Err(StoreError::QueryExecution),
    }
}

/// Lists all logs sorted by `sort_by` in the direction `sort_order`, and
/// only those whose status the filter names, unless the filter is empty. A
/// request with a word outside the allow-lists is refused before anything
/// is asked of the engine.
pub fn get_logs(store: &mut Store, sort_by: String, sort_order: String, filter: Vec<String>) -> (r:
    Result<Vec<Log>, StoreError>)
    ensures
        r == Err::<Vec<Log>, StoreError>(StoreError::InvalidQuery) <==> !logs_request_valid(
            sort_by@,
            sort_order@,
            filter.deep_view(),
        ),
        !logs_request_valid(sort_by@, sort_order@, filter.deep_view()) ==> nothing_asked(
            *old(store),
            *final(store),
        ),
        logs_request_valid(sort_by@, sort_order@, filter.deep_view()) ==> {
            &&& asked_once(
                *old(store),
                *final(store),
                logs_query(
                    column_named(sort_by@)->Some_0,
                    direction_named(sort_order@)->Some_0,
                    filter.deep_view(),
                ),
            )
            &&& logs_answer(r) == listing_lookup(
                final(store).answered().last(),
                column_named(sort_by@)->Some_0,
                direction_named(sort_order@)->Some_0,
                filter.deep_view(),
            )
        },
        r matches Ok(logs) ==> {
            &&& sorted_by(
                logs.deep_view(),
                column_named(sort_by@)->Some_0,
                direction_named(sort_order@)->Some_0,
            )
            &&& within_filter(logs.deep_view(), filter.deep_view())
        },
        r matches Err(e) ==> e == StoreError::InvalidQuery || e == StoreError::QueryExecution || e
            == StoreError::DataIntegrity,
{
    let statement = logs_statement(sort_by.as_str(), sort_order.as_str(), &filter)?;
    let column = match parse_sort_column(sort_by.as_str()) {
        Some(column) => column,
        None => {
            return Err(StoreError::InvalidQuery);
        },
    };
    let direction = match parse_sort_direction(sort_order.as_str()) {
        Some(direction) => direction,
        None => {
            return Err(StoreError::InvalidQuery);
        },
    };
    let rows = store.fetch(&statement)?;
    listed_logs_from_rows(&rows, column, direction, &filter)
}

/// The answer to the removal of the log `id`, given the answer of the
/// engine: `id`, whatever number of rows the engine removed, none included.
pub open spec fn delete_answer(answer: AnswerView, id: i32) -> Result<i32, StoreError> {
    match answer {
        AnswerView::Changed(_) => Ok(id),
        _ => Err(StoreError::QueryExecution),
    }
}

/// Removes the log `id`. A log that is not there is no error: the engine is
/// asked all the same, and whatever number of rows it removed, the answer is
/// `id`.
pub fn delete_log(store: &mut Store, id: i32) -> (r: Result<i32, StoreError>)
    ensures
        asked_once(*old(store), *final(store), delete_log_query(id as int)),
        r == delete_answer(final(store).answered().last(), id),
        r matches Ok(v) ==> v == id,
        r matches Err(e) ==> e == StoreError::QueryExecution,
{
    let statement = delete_log_statement(id);
    match store.run(&statement) {
        Ok(_) => Ok(id),
        Err(e) => Err(e),
    }
}

/// What a lookup of the log `id` comes to, given the answer of the engine.
pub open spec fn log_lookup(answer: AnswerView, id: int) -> Result<LogView, StoreError> {
    match answer {
        AnswerView::Rows(rows) => found_log(rows, id),
        _ => Err(StoreError::QueryExecution),
    }
}

/// Reads the log `id` with its game.
pub fn get_log_by_id(store: &mut Store, id: i32) -> (r: Result<Log, StoreError>)
    ensures
        asked_once(*old(store), *final(store), log_by_id_query(id as int)),
        log_answer(r) == log_lookup(final(store).answered().last(), id as int),
        r matches Ok(log) ==> log.id == id,
        r matches Err(e) ==> e == StoreError::NotFound || e == StoreError::QueryExecution || e
            == StoreError::DataIntegrity,
{
    let statement = log_by_id_statement(id);
    let rows = store.fetch(&statement)?;
    log_from_rows(&rows, id)
}

/// What a lookup of the game `id` comes to, given the answer of the engine.
pub open spec fn game_lookup(answer: AnswerView, id: int) -> Result<GameView, StoreError> {
    match answer {
        AnswerView::Rows(rows) => found_game(rows, id),
        _ => Err(StoreError::QueryExecution),
    }
}

/// Reads the game `id`.
pub fn get_logged_game(store: &mut Store, id: i32) -> (r: Result<Game, StoreError>)
    ensures
        asked_once(*old(store), *final(store), logged_game_query(id as int)),
        game_answer(r) == game_lookup(final(store).answered().last(), id as int),
        r matches Ok(game) ==> game.id == id,
        r matches Err(e) ==> e == StoreError::NotFound || e == StoreError::QueryExecution,
{
    let statement = logged_game_statement(id);
    let rows = store.fetch(&statement)?;
    game_from_rows(&rows, id)
}

/// The id of a new row as the operations hand it out, given the row id that
/// the engine reports: that id, if it fits.
pub open spec fn row_id_answer(raw: int) -> Result<i32, StoreError> {
    if i32::MIN <= raw <= i32::MAX {
        Ok(raw as i32)
    } else {
        Err(StoreError::QueryExecution)
    }
}

/// Makes the id of a new row from the row id that the engine reports.
pub fn new_row_id(raw: i64) -> (r: Result<i32, StoreError>)
    ensures
        r == row_id_answer(raw as int),
{
    if -2147483648 <= raw && raw <= 2147483647 {
        Ok(raw as i32)
    } else {
        Err(StoreError::QueryExecution)
    }
}

/// The answer to an update of the log `id`, given the number of rows that
/// the engine changed: where it changed none, there is no such log.
pub open spec fn update_answer(changed: int, id: i32) -> Result<i32, StoreError> {
    if changed == 0 {
        Err(StoreError::NotFound)
    } else {
        Ok(id)
    }
}

/// Makes the answer to an update from the number of rows changed.
pub fn update_outcome(changed: usize, id: i32) -> (r: Result<i32, StoreError>)
    ensures
        r == update_answer(changed as int, id),
{
    if changed == 0 {
        Err(StoreError::NotFound)
    } else {
        Ok(id)
    }
}

/// The answer to an update of the log `id`, given the answer of the engine.
pub open spec fn update_lookup(answer: AnswerView, id: i32) -> Result<i32, StoreError> {
    match answer {
        AnswerView::Changed(changed) => update_answer(changed, id),
        _ => Err(StoreError::QueryExecution),
    }
}

/// Overwrites the date, rating, notes, status and minutes of the log
/// `log_data.id` and renews the time of its last change. The game of the
/// log stays. Where the engine changed no row, there is no such log.
pub fn update_log(store: &mut Store, log_data: LogUpdateData) -> (r: Result<i32, StoreError>)
    ensures
        asked_once(*old(store), *final(store), update_log_query(log_data@)),
        r == update_lookup(final(store).answered().last(), log_data.id),
        r matches Ok(v) ==> v == log_data.id,
        r matches Err(e) ==> e == StoreError::NotFound || e == StoreError::QueryExecution,
{
    let statement = update_log_statement(&log_data);
    let changed = store.run(&statement)?;
    update_outcome(changed, log_data.id)
}

/// What a unit of work has asked of the engine when it ends after `reached`
/// statements of its plan. When it is done, that is the plan. When it is
/// not, the unit of work is undone, unless it was never opened.
pub open spec fn unit_issued(plan: Seq<StatementView>, reached: int, done: bool) -> Seq<
    StatementView,
> {
    if done {
        plan
    } else if reached <= 1 {
        plan.take(1)
    } else {
        plan.take(reached).push(rollback_query())
    }
}

/// The engine failed on none of the first `n` answers.
pub open spec fn fine(answers: Seq<AnswerView>, n: int) -> bool {
    n <= answers.len() && forall|j: int| 0 <= j < n ==> !((#[trigger] answers[j]) is Failed)
}

/// How a unit of work that stores one new row ends, given the answers of
/// the engine, and what it returns. The plan opens the unit with its first
/// statement and keeps it with its last; between the last change and the
/// keeping the engine is asked for the id of the new row. `reached` counts
/// the statements of the plan that went to the engine.
///
/// - The engine fails on a statement before the last: the work stops
///   there, and the unit is undone if it was opened.
/// - The id of the new row does not fit: the unit is undone.
/// - The engine fails to keep the unit: the unit is undone.
/// - Otherwise the unit is kept and the id is returned.
pub open spec fn unit_ended(
    plan: Seq<StatementView>,
    reached: int,
    answers: Seq<AnswerView>,
    r: Result<i32, StoreError>,
) -> bool {
    let changes = plan.len() - 1;
    let unkept = Err::<i32, StoreError>(StoreError::QueryExecution);
    ||| {
        &&& 1 <= reached <= changes
        &&& fine(answers, reached - 1)
        &&& answers.len() == reached + if reached > 1 {
            1int
        } else {
            0int
        }
        &&& answers[reached - 1] is Failed
        &&& r == unkept
    }
    ||| {
        &&& reached == changes
        &&& fine(answers, changes)
        &&& answers.len() == changes + 2
        &&& answers[changes] is RowId
        &&& row_id_answer(answers[changes]->RowId_0) is Err
        &&& r == unkept
    }
    ||| {
        &&& reached == changes + 1
        &&& fine(answers, changes)
        &&& answers.len() == changes + 3
        &&& answers[changes] is RowId
        &&& row_id_answer(answers[changes]->RowId_0) is Ok
        &&& answers[changes + 1] is Failed
        &&& r == unkept
    }
    ||| {
        &&& reached == changes + 1
        &&& fine(answers, changes)
        &&& answers.len() == changes + 2
        &&& answers[changes] is RowId
        &&& !(answers[changes + 1] is Failed)
        &&& r is Ok
        &&& r == row_id_answer(answers[changes]->RowId_0)
    }
}

/// From `before` to `after` the statements and the answers are those of one
/// unit of work with the given plan, and `r` is what it returns.
pub open spec fn unit_ran(
    plan: Seq<StatementView>,
    before: Store,
    after: Store,
    r: Result<i32, StoreError>,
) -> bool {
    &&& answers_added(before, after)
    &&& exists|reached: int|
        {
            &&& #[trigger] unit_ended(plan, reached, new_answers(before, after), r)
            &&& after.issued() == before.issued() + unit_issued(plan, reached, r is Ok)
        }
}

/// The statements issued from `before` to `after` are those of one attempt
/// at a unit of work with the given plan: the plan where it is done, else
/// the part of the plan that was reached, and the undoing if the unit was
/// opened.
pub open spec fn unit_trace(
    plan: Seq<StatementView>,
    before: Seq<StatementView>,
    after: Seq<StatementView>,
    done: bool,
) -> bool {
    exists|reached: int|
        1 <= reached <= plan.len() && after == before + #[trigger] unit_issued(plan, reached, done)
}

/// Asks the engine to undo the open unit of work, and hands on what the
/// engine answered. Should the engine fail at that too, the failure that
/// led here is the one to report.
fn undo(store: &mut Store) -> (r: Result<usize, StoreError>)
    ensures
        final(store).location() == old(store).location(),
        final(store).issued() == old(store).issued().push(rollback_query()),
        final(store).answered() == old(store).answered().push(change_answer(r)),
{
    let statement = rollback_statement();
    store.run(&statement)
}

/// Makes the changes of a unit of work that is open, asks for the id of the
/// new row and keeps the unit; undoes the unit where any of it fails.
/// `start` is the store before the unit; `head` holds the statements of the
/// unit that went to the engine since, and `heard` the answers to them.
fn complete_unit(
    store: &mut Store,
    steps: &Vec<Statement>,
    Ghost(start): Ghost<Store>,
    Ghost(head): Ghost<Seq<StatementView>>,
    Ghost(heard): Ghost<Seq<AnswerView>>,
) -> (r: Result<i32, StoreError>)
    requires
        head.len() >= 1,
        steps@.len() >= 1,
        old(store).location() == start.location(),
        old(store).issued() == start.issued() + head,
        old(store).answered() == start.answered() + heard,
        heard.len() == head.len(),
        fine(heard, head.len() as int),
    ensures
        unit_ran(head + steps.deep_view() + seq![commit_query()], start, *final(store), r),
        new_answers(start, *final(store)).len() >= heard.len(),
        new_answers(start, *final(store)).take(heard.len() as int) =~= heard,
{
    let ghost plan = head + steps.deep_view() + seq![commit_query()];
    let ghost h = head.len() as int;
    let ghost base = start.answered().len() as int;
    let ghost fresh = heard;
    assert(steps.deep_view().len() == steps.len());
    let ghost changes = plan.len() - 1;
    let mut i: usize = 0;
    assert(plan.take(h) =~= head);
    while i < steps.len()
        invariant
            i <= steps.len(),
            h == head.len(),
            h >= 1,
            steps@.len() >= 1,
            changes == h + steps.len(),
            changes == plan.len() - 1,
            plan == head + steps.deep_view() + seq![commit_query()],
            store.location() == start.location(),
            store.issued() == start.issued() + plan.take(h + i),
            store.answered() == start.answered() + fresh,
            fresh.len() == h + i,
            fresh.take(h) =~= heard,
            heard.len() == h,
            fine(fresh, h + i),
        decreases steps.len() - i,
    {
        assert(steps.deep_view()[i as int] == steps@[i as int]@);
        assert(plan[h + i] == steps@[i as int]@);
        let outcome = store.run(&steps[i]);
        proof {
            fresh = fresh.push(change_answer(outcome));
            assert(store.issued() =~= start.issued() + plan.take(h + i + 1));
            assert(store.answered() =~= start.answered() + fresh);
        }
        if let Err(e) = outcome {
            let undone = undo(store);
            proof {
                let reached = h + i + 1;
                fresh = fresh.push(change_answer(undone));
                assert(store.answered() =~= start.answered() + fresh);
                assert(new_answers(start, *store) =~= fresh);
                assert(store.issued() =~= start.issued() + unit_issued(plan, reached, false));
                assert(unit_ended(plan, reached, fresh, Err::<i32, StoreError>(e)));
            }
            return Err(e);
        }
        i = i + 1;
    }
    let raw = store.latest_row_id();
    proof {
        fresh = fresh.push(AnswerView::RowId(raw as int));
        assert(store.answered() =~= start.answered() + fresh);
        assert(plan.take(changes).push(commit_query()) =~= plan);
    }
    let id = match new_row_id(raw) {
        Ok(id) => id,
        Err(e) => {
            let undone = undo(store);
            proof {
                fresh = fresh.push(change_answer(undone));
                assert(store.answered() =~= start.answered() + fresh);
                assert(new_answers(start, *store) =~= fresh);
                assert(store.issued() =~= start.issued() + unit_issued(plan, changes, false));
                assert(unit_ended(plan, changes, fresh, Err::<i32, StoreError>(e)));
            }
            return Err(e);
        },
    };
    let commit = commit_statement();
    let kept = store.run(&commit);
    proof {
        fresh = fresh.push(change_answer(kept));
        assert(store.answered() =~= start.answered() + fresh);
        assert(store.issued() =~= start.issued() + plan);
    }
    if let Err(e) = kept {
        let undone = undo(store);
        proof {
            fresh = fresh.push(change_answer(undone));
            assert(plan.take(changes + 1) =~= plan);
            assert(store.answered() =~= start.answered() + fresh);
            assert(new_answers(start, *store) =~= fresh);
            assert(store.issued() =~= start.issued() + unit_issued(plan, changes + 1, false));
            assert(unit_ended(plan, changes + 1, fresh, Err::<i32, StoreError>(e)));
        }
        return Err(e);
    }
    proof {
        assert(new_answers(start, *store) =~= fresh);
        assert(store.issued() =~= start.issued() + unit_issued(plan, changes + 1, true));
        assert(unit_ended(plan, changes + 1, fresh, Ok::<i32, StoreError>(id)));
    }
    Ok(id)
}

/// All that storing a mapping asks of the engine when nothing fails: it
/// opens a unit of work, stores the mapping and keeps the unit.
pub open spec fn add_executable_plan(details: ExecutableDetailsView) -> Seq<StatementView> {
    seq![begin_query(), insert_executable_query(details), commit_query()]
}

/// The statements issued from `before` to `after` are those of one attempt
/// to store a mapping.
pub open spec fn add_executable_trace(
    before: Seq<StatementView>,
    after: Seq<StatementView>,
    details: ExecutableDetailsView,
    done: bool,
) -> bool {
    unit_trace(add_executable_plan(details), before, after, done)
}

/// Stores a mapping from an executable to a game and returns the id of the
/// new row. The mapping is kept only if the id can be returned: the row is
/// stored in a unit of work that is undone where anything fails.
pub fn add_executable_details(store: &mut Store, executable_details: ExecutableDetails) -> (r:
    Result<i32, StoreError>)
    ensures
        unit_ran(add_executable_plan(executable_details@), *old(store), *final(store), r),
        add_executable_trace(
            old(store).issued(),
            final(store).issued(),
            executable_details@,
            r is Ok,
        ),
        r matches Err(e) ==> e == StoreError::QueryExecution,
{
    let ghost start = *store;
    let ghost plan = add_executable_plan(executable_details@);
    let begin = begin_statement();
    let begun = store.run(&begin);
    let ghost heard = seq![change_answer(begun)];
    assert(store.answered() =~= start.answered() + heard);
    if let Err(e) = begun {
        proof {
            assert(new_answers(start, *store) =~= heard);
            assert(store.issued() =~= start.issued() + unit_issued(plan, 1, false));
            assert(unit_ended(plan, 1, heard, Err::<i32, StoreError>(e)));
        }
        return Err(e);
    }
    let mut steps: Vec<Statement> = Vec::new();
    steps.push(insert_executable_statement(&executable_details));
    let ghost head = seq![begin_query()];
    proof {
        assert(steps.deep_view() =~= seq![insert_executable_query(executable_details@)]);
        assert(head + steps.deep_view() + seq![commit_query()] =~= plan);
        assert(store.issued() =~= start.issued() + head);
    }
    let r = complete_unit(store, &steps, Ghost(start), Ghost(head), Ghost(heard));
    proof {
        let reached = choose|reached: int|
            {
                &&& #[trigger] unit_ended(plan, reached, new_answers(start, *store), r)
                &&& store.issued() == start.issued() + unit_issued(plan, reached, r is Ok)
            };
        assert(store.issued() == start.issued() + unit_issued(plan, reached, r is Ok));
    }
    r
}

/// The rows that a new log adds to the store: the log, and before it the
/// game if the store does not know it. A game that the store knows is left
/// as it is, whatever the new log says of it.
pub open spec fn add_log_changes(data: LogDataView, game_known: bool) -> Seq<StatementView> {
    if game_known {
        seq![insert_log_query(data)]
    } else {
        seq![insert_game_query(data.game), insert_log_query(data)]
    }
}

/// All that adding a log asks of the engine when nothing fails: it opens a
/// unit of work, looks for the game, makes the changes and keeps them.
pub open spec fn add_log_plan(data: LogDataView, game_known: bool) -> Seq<StatementView> {
    seq![begin_query(), find_game_query(data.game.id)] + add_log_changes(data, game_known)
        + seq![commit_query()]
}

/// What adding a log has asked of the engine when it ends after `reached`
/// statements of its plan.
pub open spec fn add_log_issued(data: LogDataView, game_known: bool, reached: int, done: bool) -> Seq<
    StatementView,
> {
    unit_issued(add_log_plan(data, game_known), reached, done)
}

/// The statements issued from `before` to `after` are those of one attempt
/// to add a log.
pub open spec fn add_log_trace(
    before: Seq<StatementView>,
    after: Seq<StatementView>,
    data: LogDataView,
    done: bool,
) -> bool {
    exists|game_known: bool, reached: int|
        1 <= reached <= add_log_plan(data, game_known).len() && after == before
            + #[trigger] add_log_issued(data, game_known, reached, done)
}

/// The store knows the game, by the answer of the engine to the lookup: it
/// found a row.
pub open spec fn lookup_found(answer: AnswerView) -> bool {
    answer matches AnswerView::Rows(rows) && rows.len() > 0
}

/// The store knows the game of a new log, by the answers that the engine
/// gave while the log was added: the second is the answer to the lookup.
pub open spec fn game_found(answers: Seq<AnswerView>) -> bool {
    answers.len() > 1 && lookup_found(answers[1])
}

/// Tells from the rows of the lookup whether the store knows the game.
pub fn game_is_known(rows: &Vec<Vec<Cell>>) -> (r: bool)
    ensures
        r == (rows@.len() > 0),
{
    rows.len() > 0
}

/// Decides which rows a new log adds to the store.
pub fn add_log_steps(data: &LogData, game_known: bool) -> (steps: Vec<Statement>)
    ensures
        steps.deep_view() == add_log_changes(data@, game_known),
{
    let mut steps: Vec<Statement> = Vec::new();
    if !game_known {
        steps.push(insert_game_statement(&data.game));
    }
    steps.push(insert_log_statement(data));
    assert(steps.deep_view() =~= add_log_changes(data@, game_known));
    steps
}

/// Stores a new log and returns its id. The game that comes with it is
/// stored first if the lookup finds no row for its id; a game that the
/// store knows is left untouched. All of it is kept or none of it.
pub fn add_log(store: &mut Store, log_data: LogData) -> (r: Result<i32, StoreError>)
    ensures
        unit_ran(
            add_log_plan(log_data@, game_found(new_answers(*old(store), *final(store)))),
            *old(store),
            *final(store),
            r,
        ),
        add_log_trace(old(store).issued(), final(store).issued(), log_data@, r is Ok),
        r matches Err(e) ==> e == StoreError::QueryExecution,
{
    let ghost start = *store;
    let ghost data = log_data@;
    let begin = begin_statement();
    let begun = store.run(&begin);
    let ghost heard = seq![change_answer(begun)];
    assert(store.answered() =~= start.answered() + heard);
    if let Err(e) = begun {
        proof {
            let plan = add_log_plan(data, game_found(heard));
            assert(new_answers(start, *store) =~= heard);
            assert(plan.take(1) =~= add_log_plan(data, false).take(1));
            assert(store.issued() =~= start.issued() + unit_issued(plan, 1, false));
            assert(unit_ended(plan, 1, heard, Err::<i32, StoreError>(e)));
            assert(store.issued() =~= start.issued() + add_log_issued(data, false, 1, false));
        }
        return Err(e);
    }
    let find = find_game_statement(log_data.game.id);
    let looked = store.fetch(&find);
    let ghost heard = heard.push(rows_answer(looked));
    assert(store.answered() =~= start.answered() + heard);
    let rows = match looked {
        Ok(rows) => rows,
        Err(e) => {
            let undone = undo(store);
            proof {
                let fresh = heard.push(change_answer(undone));
                let plan = add_log_plan(data, game_found(fresh));
                assert(store.answered() =~= start.answered() + fresh);
                assert(new_answers(start, *store) =~= fresh);
                assert(plan.take(2) =~= add_log_plan(data, false).take(2));
                assert(store.issued() =~= start.issued() + unit_issued(plan, 2, false));
                assert(unit_ended(plan, 2, fresh, Err::<i32, StoreError>(e)));
                assert(store.issued() =~= start.issued() + add_log_issued(data, false, 2, false));
            }
            return Err(e);
        },
    };
    let known = game_is_known(&rows);
    let steps = add_log_steps(&log_data, known);
    let ghost head = seq![begin_query(), find_game_query(data.game.id)];
    let ghost plan = add_log_plan(data, known);
    proof {
        assert(rows.deep_view().len() == rows@.len());
        assert(game_found(heard) == known);
        assert(head + steps.deep_view() + seq![commit_query()] =~= plan);
        assert(store.issued() =~= start.issued() + head);
    }
    let r = complete_unit(store, &steps, Ghost(start), Ghost(head), Ghost(heard));
    proof {
        let answers = new_answers(start, *store);
        let reached = choose|reached: int|
            {
                &&& #[trigger] unit_ended(plan, reached, answers, r)
                &&& store.issued() == start.issued() + unit_issued(plan, reached, r is Ok)
            };
        assert(answers.take(2)[1] == heard[1]);
        assert(game_found(answers) == known);
        assert(store.issued() == start.issued() + add_log_issued(data, known, reached, r is Ok));
    }
    r
}

} // verus!
