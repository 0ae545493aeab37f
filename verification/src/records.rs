//! The records that cross the store's boundary, each with its mathematical
//! view, and the errors an operation can end in.

use vstd::prelude::*;

verus! {

/// A catalogue entry. Its `id` is assigned by the outside catalogue and kept
/// as it is.
#[derive(Debug, Clone, PartialEq, Eq)]
pub struct Game {
    pub id: i32,
    pub title: String,
    pub cover_id: String,
}

/// What a [`Game`] holds.
pub ghost struct GameView {
    pub id: int,
    pub title: Seq<char>,
    pub cover_id: Seq<char>,
}

impl View for Game {
    type V = GameView;

    open spec fn view(&self) -> GameView {
        GameView { id: self.id as int, title: self.title@, cover_id: self.cover_id@ }
    }
}

impl DeepView for Game {
    type V = GameView;

    open spec fn deep_view(&self) -> GameView {
        self@
    }
}

/// Maps the name of a launched executable to the game it belongs to.
#[derive(Debug, Clone, PartialEq, Eq)]
pub struct ExecutableDetails {
    pub name: String,
    pub game_id: i32,
}

/// What an [`ExecutableDetails`] holds.
pub ghost struct ExecutableDetailsView {
    pub name: Seq<char>,
    pub game_id: int,
}

impl View for ExecutableDetails {
    type V = ExecutableDetailsView;

    open spec fn view(&self) -> ExecutableDetailsView {
        ExecutableDetailsView { name: self.name@, game_id: self.game_id as int }
    }
}

/// Totals over the logs of a closed date interval.
#[derive(Debug, Clone, Copy, PartialEq, Eq, Structural)]
pub struct DashboardStatistics {
    pub total_minutes_played: i32,
    pub total_games_played: i32,
    pub total_games_completed: i32,
}

/// A play session as it is read back: the stored row joined with its game.
#[derive(Debug, Clone, PartialEq, Eq)]
pub struct Log {
    pub id: i32,
    pub created_at: String,
    pub updated_at: String,
    pub date: String,
    pub rating: i32,
    pub notes: String,
    pub status: String,
    pub minutes_played: i32,
    pub game: Game,
}

/// What a [`Log`] holds.
pub ghost struct LogView {
    pub id: int,
    pub created_at: Seq<char>,
    pub updated_at: Seq<char>,
    pub date: Seq<char>,
    pub rating: int,
    pub notes: Seq<char>,
    pub status: Seq<char>,
    pub minutes_played: int,
    pub game: GameView,
}

impl View for Log {
    type V = LogView;

    open spec fn view(&self) -> LogView {
        LogView {
            id: self.id as int,
            created_at: self.created_at@,
            updated_at: self.updated_at@,
            date: self.date@,
            rating: self.rating as int,
            notes: self.notes@,
            status: self.status@,
            minutes_played: self.minutes_played as int,
            game: self.game@,
        }
    }
}

impl DeepView for Log {
    type V = LogView;

    open spec fn deep_view(&self) -> LogView {
        self@
    }
}

/// A play session as it is handed in: it carries the whole game, which is
/// stored with it if the catalogue id is new to the store.
#[derive(Debug, Clone, PartialEq, Eq)]
pub struct LogData {
    pub date: String,
    pub rating: i32,
    pub notes: String,
    pub status: String,
    pub minutes_played: i32,
    pub game: Game,
}

/// What a [`LogData`] holds.
pub ghost struct LogDataView {
    pub date: Seq<char>,
    pub rating: int,
    pub notes: Seq<char>,
    pub status: Seq<char>,
    pub minutes_played: int,
    pub game: GameView,
}

impl View for LogData {
    type V = LogDataView;

    open spec fn view(&self) -> LogDataView {
        LogDataView {
            date: self.date@,
            rating: self.rating as int,
            notes: self.notes@,
            status: self.status@,
            minutes_played: self.minutes_played as int,
            game: self.game@,
        }
    }
}

/// New contents for the log `id`. The game a log belongs to cannot be changed.
#[derive(Debug, Clone, PartialEq, Eq)]
pub struct LogUpdateData {
    pub id: i32,
    pub date: String,
    pub rating: i32,
    pub notes: String,
    pub status: String,
    pub minutes_played: i32,
}

/// What a [`LogUpdateData`] holds.
pub ghost struct LogUpdateDataView {
    pub id: int,
    pub date: Seq<char>,
    pub rating: int,
    pub notes: Seq<char>,
    pub status: Seq<char>,
    pub minutes_played: int,
}

impl View for LogUpdateData {
    type V = LogUpdateDataView;

    open spec fn view(&self) -> LogUpdateDataView {
        LogUpdateDataView {
            id: self.id as int,
            date: self.date@,
            rating: self.rating as int,
            notes: self.notes@,
            status: self.status@,
            minutes_played: self.minutes_played as int,
        }
    }
}

/// How an operation can fail. Nothing is retried or repaired here: every
/// failure goes to the caller.
#[derive(Debug, Clone, Copy, PartialEq, Eq, Structural)]
pub enum StoreError {
    /// The store could not be opened or its tables could not be set up.
    StorageInit,
    /// The engine failed on a statement, or handed back what the statement
    /// cannot have produced.
    QueryExecution,
    /// A lookup by id or name found no row.
    NotFound,
    /// A sort column, a sort direction or a status lies outside its
    /// allow-list.
    InvalidQuery,
    /// A log refers to a game that the store does not hold.
    DataIntegrity,
}

/// The outcome of reading a log, as the contracts see it.
pub open spec fn log_answer(r: Result<Log, StoreError>) -> Result<LogView, StoreError> {
    match r {
        Ok(log) => Ok(log@),
        Err(e) => Err(e),
    }
}

/// The outcome of reading a listing of logs, as the contracts see it.
pub open spec fn logs_answer(r: Result<Vec<Log>, StoreError>) -> Result<Seq<LogView>, StoreError> {
    match r {
        Ok(logs) => Ok(logs.deep_view()),
        Err(e) => Err(e),
    }
}

/// The outcome of reading a game, as the contracts see it.
pub open spec fn game_answer(r: Result<Game, StoreError>) -> Result<GameView, StoreError> {
    match r {
        Ok(game) => Ok(game@),
        Err(e) => Err(e),
    }
}

/// The outcome of reading the mapping of an executable, as the contracts
/// see it.
pub open spec fn executable_answer(r: Result<ExecutableDetails, StoreError>) -> Result<
    ExecutableDetailsView,
    StoreError,
> {
    match r {
        Ok(details) => Ok(details@),
        Err(e) => Err(e),
    }
}

} // verus!
