use game_log_store::engine::Store;
use game_log_store::records::{
    DashboardStatistics, ExecutableDetails, Game, LogData, LogUpdateData, StoreError,
};
use game_log_store::repository::{
    add_executable_details, add_log, delete_log, get_dashboard_statistics,
    get_executable_details, get_log_by_id, get_logged_game, get_logs, get_recent_logs,
    initialize_database, update_log,
};

fn fresh() -> Store {
    initialize_database(":memory:").unwrap()
}

fn game(id: i32, title: &str, cover_id: &str) -> Game {
    Game { id, title: title.to_string(), cover_id: cover_id.to_string() }
}

fn entry(game: Game, date: &str, status: &str, minutes_played: i32, rating: i32) -> LogData {
    LogData {
        date: date.to_string(),
        rating,
        notes: format!("notes of {}", date),
        status: status.to_string(),
        minutes_played,
        game,
    }
}

fn words(list: &[&str]) -> Vec<String> {
    list.iter().map(|w| w.to_string()).collect()
}

fn all_logs(store: &mut Store) -> Vec<game_log_store::records::Log> {
    get_logs(store, "id".to_string(), "ASC".to_string(), Vec::new()).unwrap()
}

#[test]
fn first_log_of_a_game_stores_the_game_and_the_log() {
    let mut store = fresh();
    assert_eq!(get_logged_game(&mut store, 7), Err(StoreError::NotFound));
    let id = add_log(&mut store, entry(game(7, "Hades", "c1"), "2024-01-01", "playing", 60, 4))
        .unwrap();
    assert_eq!(get_logged_game(&mut store, 7), Ok(game(7, "Hades", "c1")));
    let logs = all_logs(&mut store);
    assert_eq!(logs.len(), 1);
    assert_eq!(logs[0].id, id);
    assert_eq!(logs[0].game, game(7, "Hades", "c1"));
    assert_eq!(logs[0].date, "2024-01-01");
    assert_eq!(logs[0].rating, 4);
    assert_eq!(logs[0].notes, "notes of 2024-01-01");
    assert_eq!(logs[0].status, "playing");
    assert_eq!(logs[0].minutes_played, 60);
    assert!(!logs[0].created_at.is_empty());
    assert!(!logs[0].updated_at.is_empty());
}

#[test]
fn later_log_of_a_known_game_leaves_the_game_as_it_is() {
    let mut store = fresh();
    let first = add_log(&mut store, entry(game(7, "Hades", "c1"), "2024-01-01", "playing", 60, 4))
        .unwrap();
    let second =
        add_log(&mut store, entry(game(7, "Hades II", "c2"), "2024-01-02", "completed", 30, 5))
            .unwrap();
    assert_ne!(first, second);
    assert_eq!(get_logged_game(&mut store, 7), Ok(game(7, "Hades", "c1")));
    let logs = all_logs(&mut store);
    assert_eq!(logs.len(), 2);
    assert_eq!(logs[0].game, game(7, "Hades", "c1"));
    assert_eq!(logs[1].game, game(7, "Hades", "c1"));
}

#[test]
fn relogged_game_keeps_its_first_title() {
    let mut store = fresh();
    let id = add_log(&mut store, entry(game(7, "Hades", "c1"), "2024-01-01", "playing", 60, 0))
        .unwrap();
    let log = get_log_by_id(&mut store, id).unwrap();
    assert_eq!(log.game.title, "Hades");
    let again =
        add_log(&mut store, entry(game(7, "Hades II", "c2"), "2024-01-01", "playing", 60, 0))
            .unwrap();
    let log = get_log_by_id(&mut store, again).unwrap();
    assert_eq!(log.id, again);
    assert_eq!(log.game.title, "Hades");
    assert_eq!(log.game.cover_id, "c1");
}

#[test]
fn executable_of_an_empty_store_is_not_found() {
    let mut store = fresh();
    assert_eq!(get_executable_details(&mut store, "game.exe"), Err(StoreError::NotFound));
}

#[test]
fn executable_is_found_by_its_name() {
    let mut store = fresh();
    add_log(&mut store, entry(game(3, "Celeste", "c3"), "2024-02-01", "playing", 10, 0)).unwrap();
    let details = ExecutableDetails { name: "celeste.exe".to_string(), game_id: 3 };
    let first = add_executable_details(&mut store, details.clone()).unwrap();
    let other = ExecutableDetails { name: "other.exe".to_string(), game_id: 3 };
    let second = add_executable_details(&mut store, other).unwrap();
    assert_ne!(first, second);
    assert_eq!(get_executable_details(&mut store, "celeste.exe"), Ok(details));
    assert_eq!(get_executable_details(&mut store, "celeste"), Err(StoreError::NotFound));
}

#[test]
fn deleting_twice_succeeds_twice_and_changes_nothing_more() {
    let mut store = fresh();
    let kept = add_log(&mut store, entry(game(1, "A", "a"), "2024-01-01", "playing", 5, 0))
        .unwrap();
    let gone = add_log(&mut store, entry(game(2, "B", "b"), "2024-01-02", "playing", 6, 0))
        .unwrap();
    assert_eq!(delete_log(&mut store, gone), Ok(gone));
    let after_first = all_logs(&mut store);
    assert_eq!(delete_log(&mut store, gone), Ok(gone));
    let after_second = all_logs(&mut store);
    assert_eq!(after_first, after_second);
    assert_eq!(after_second.len(), 1);
    assert_eq!(after_second[0].id, kept);
    assert_eq!(get_log_by_id(&mut store, gone), Err(StoreError::NotFound));
    assert_eq!(get_logged_game(&mut store, 2), Ok(game(2, "B", "b")));
}

#[test]
fn deleting_what_was_never_there_is_no_error() {
    let mut store = fresh();
    assert_eq!(delete_log(&mut store, 41), Ok(41));
    assert_eq!(all_logs(&mut store).len(), 0);
}

#[test]
fn recent_logs_come_latest_first_and_keep_to_the_limit() {
    let mut store = fresh();
    for (day, status) in
        [("2024-01-03", "playing"), ("2024-01-01", "completed"), ("2024-01-05", "wishlist"),
            ("2024-01-02", "playing"), ("2024-01-04", "completed")]
    {
        add_log(&mut store, entry(game(1, "A", "a"), day, status, 1, 0)).unwrap();
    }
    let logs = get_recent_logs(&mut store, 3, Vec::new()).unwrap();
    let dates: Vec<&str> = logs.iter().map(|l| l.date.as_str()).collect();
    assert_eq!(dates, vec!["2024-01-05", "2024-01-04", "2024-01-03"]);
    let logs = get_recent_logs(&mut store, 10, Vec::new()).unwrap();
    assert_eq!(logs.len(), 5);
    let logs = get_recent_logs(&mut store, 10, words(&["playing"])).unwrap();
    let dates: Vec<&str> = logs.iter().map(|l| l.date.as_str()).collect();
    assert_eq!(dates, vec!["2024-01-03", "2024-01-02"]);
    let logs = get_recent_logs(&mut store, 1, words(&["completed", "wishlist"])).unwrap();
    let dates: Vec<&str> = logs.iter().map(|l| l.date.as_str()).collect();
    assert_eq!(dates, vec!["2024-01-05"]);
}

#[test]
fn recent_logs_without_room_are_empty() {
    let mut store = fresh();
    add_log(&mut store, entry(game(1, "A", "a"), "2024-01-01", "playing", 1, 0)).unwrap();
    assert_eq!(get_recent_logs(&mut store, 0, Vec::new()), Ok(Vec::new()));
    assert_eq!(get_recent_logs(&mut store, -1, Vec::new()), Ok(Vec::new()));
    assert_eq!(get_recent_logs(&mut store, i32::MIN, words(&["playing"])), Ok(Vec::new()));
}

#[test]
fn recent_logs_refuse_an_unknown_status() {
    let mut store = fresh();
    assert_eq!(
        get_recent_logs(&mut store, 5, words(&["playing", "x') OR 1=1 --"])),
        Err(StoreError::InvalidQuery)
    );
    assert_eq!(get_recent_logs(&mut store, 0, words(&["Playing"])), Err(StoreError::InvalidQuery));
}

#[test]
fn logs_are_sorted_by_the_chosen_column() {
    let mut store = fresh();
    add_log(&mut store, entry(game(1, "A", "a"), "2024-01-03", "playing", 30, 2)).unwrap();
    add_log(&mut store, entry(game(2, "B", "b"), "2024-01-01", "completed", 10, 5)).unwrap();
    add_log(&mut store, entry(game(3, "C", "c"), "2024-01-02", "wishlist", 20, 1)).unwrap();
    let by = |store: &mut Store, column: &str, order: &str| -> Vec<i32> {
        get_logs(store, column.to_string(), order.to_string(), Vec::new())
            .unwrap()
            .iter()
            .map(|l| l.game.id)
            .collect()
    };
    assert_eq!(by(&mut store, "date", "ASC"), vec![2, 3, 1]);
    assert_eq!(by(&mut store, "date", "DESC"), vec![1, 3, 2]);
    assert_eq!(by(&mut store, "rating", "ASC"), vec![3, 1, 2]);
    assert_eq!(by(&mut store, "rating", "DESC"), vec![2, 1, 3]);
    assert_eq!(by(&mut store, "minutes_played", "DESC"), vec![1, 3, 2]);
    assert_eq!(by(&mut store, "status", "ASC"), vec![2, 1, 3]);
    assert_eq!(by(&mut store, "id", "DESC"), vec![3, 2, 1]);
    assert_eq!(by(&mut store, "notes", "ASC"), vec![2, 3, 1]);
    assert_eq!(by(&mut store, "game_id", "DESC"), vec![3, 2, 1]);
    assert_eq!(by(&mut store, "title", "ASC"), vec![1, 2, 3]);
    assert_eq!(by(&mut store, "title", "DESC"), vec![3, 2, 1]);
    assert_eq!(by(&mut store, "created_at", "ASC").len(), 3);
    assert_eq!(by(&mut store, "updated_at", "DESC").len(), 3);
}

#[test]
fn logs_keep_to_the_filter() {
    let mut store = fresh();
    add_log(&mut store, entry(game(1, "A", "a"), "2024-01-03", "playing", 30, 2)).unwrap();
    add_log(&mut store, entry(game(2, "B", "b"), "2024-01-01", "completed", 10, 5)).unwrap();
    add_log(&mut store, entry(game(3, "C", "c"), "2024-01-02", "wishlist", 20, 1)).unwrap();
    let logs = get_logs(
        &mut store,
        "date".to_string(),
        "ASC".to_string(),
        words(&["wishlist", "playing"]),
    )
    .unwrap();
    let ids: Vec<i32> = logs.iter().map(|l| l.game.id).collect();
    assert_eq!(ids, vec![3, 1]);
    let logs =
        get_logs(&mut store, "date".to_string(), "ASC".to_string(), words(&["dropped"])).unwrap();
    assert_eq!(logs.len(), 0);
    let logs = get_logs(&mut store, "date".to_string(), "ASC".to_string(), Vec::new()).unwrap();
    assert_eq!(logs.len(), 3);
}

#[test]
fn logs_refuse_words_outside_the_lists() {
    let mut store = fresh();
    add_log(&mut store, entry(game(1, "A", "a"), "2024-01-03", "playing", 30, 2)).unwrap();
    let ask = |store: &mut Store, column: &str, order: &str, filter: &[&str]| {
        get_logs(store, column.to_string(), order.to_string(), words(filter))
    };
    assert_eq!(ask(&mut store, "cover_id", "ASC", &[]), Err(StoreError::InvalidQuery));
    assert_eq!(ask(&mut store, "logs.date", "ASC", &[]), Err(StoreError::InvalidQuery));
    assert_eq!(ask(&mut store, "date; DROP TABLE logs", "ASC", &[]), Err(StoreError::InvalidQuery));
    assert_eq!(ask(&mut store, "", "ASC", &[]), Err(StoreError::InvalidQuery));
    assert_eq!(ask(&mut store, "date", "asc", &[]), Err(StoreError::InvalidQuery));
    assert_eq!(ask(&mut store, "date", "DESC; --", &[]), Err(StoreError::InvalidQuery));
    assert_eq!(ask(&mut store, "date", "DESC", &["played"]), Err(StoreError::InvalidQuery));
    assert_eq!(ask(&mut store, "date", "DESC", &["playing"]).unwrap().len(), 1);
}

#[test]
fn log_that_is_not_there_is_not_found() {
    let mut store = fresh();
    assert_eq!(get_log_by_id(&mut store, 1), Err(StoreError::NotFound));
}

#[test]
fn update_overwrites_the_log_and_keeps_its_game() {
    let mut store = fresh();
    let id = add_log(&mut store, entry(game(7, "Hades", "c1"), "2024-01-01", "playing", 60, 3))
        .unwrap();
    let before = get_log_by_id(&mut store, id).unwrap();
    let update = LogUpdateData {
        id,
        date: "2024-03-05".to_string(),
        rating: 5,
        notes: "done".to_string(),
        status: "completed".to_string(),
        minutes_played: 600,
    };
    assert_eq!(update_log(&mut store, update), Ok(id));
    let after = get_log_by_id(&mut store, id).unwrap();
    assert_eq!(after.id, id);
    assert_eq!(after.date, "2024-03-05");
    assert_eq!(after.rating, 5);
    assert_eq!(after.notes, "done");
    assert_eq!(after.status, "completed");
    assert_eq!(after.minutes_played, 600);
    assert_eq!(after.game, before.game);
    assert_eq!(after.created_at, before.created_at);
}

#[test]
fn update_of_a_log_that_is_not_there_is_not_found() {
    let mut store = fresh();
    let update = LogUpdateData {
        id: 9,
        date: "2024-03-05".to_string(),
        rating: 5,
        notes: "done".to_string(),
        status: "completed".to_string(),
        minutes_played: 600,
    };
    assert_eq!(update_log(&mut store, update), Err(StoreError::NotFound));
    assert_eq!(all_logs(&mut store).len(), 0);
}

#[test]
fn statistics_of_an_empty_range_are_zero() {
    let mut store = fresh();
    let zero = DashboardStatistics {
        total_minutes_played: 0,
        total_games_played: 0,
        total_games_completed: 0,
    };
    assert_eq!(
        get_dashboard_statistics(&mut store, "2024-01-01".to_string(), "2024-12-31".to_string()),
        Ok(zero)
    );
    add_log(&mut store, entry(game(1, "A", "a"), "2023-12-31", "completed", 30, 2)).unwrap();
    add_log(&mut store, entry(game(1, "A", "a"), "2025-01-01", "playing", 30, 2)).unwrap();
    assert_eq!(
        get_dashboard_statistics(&mut store, "2024-01-01".to_string(), "2024-12-31".to_string()),
        Ok(zero)
    );
    assert_eq!(
        get_dashboard_statistics(&mut store, "2025-12-31".to_string(), "2023-01-01".to_string()),
        Ok(zero)
    );
}

#[test]
fn statistics_leave_out_the_wishlist_and_count_completed_twice() {
    let mut store = fresh();
    add_log(&mut store, entry(game(1, "A", "a"), "2024-01-01", "playing", 60, 0)).unwrap();
    add_log(&mut store, entry(game(2, "B", "b"), "2024-01-15", "completed", 45, 0)).unwrap();
    add_log(&mut store, entry(game(3, "C", "c"), "2024-01-20", "wishlist", 1000, 0)).unwrap();
    add_log(&mut store, entry(game(4, "D", "d"), "2024-01-31", "completed", 15, 0)).unwrap();
    add_log(&mut store, entry(game(5, "E", "e"), "2024-02-01", "completed", 500, 0)).unwrap();
    assert_eq!(
        get_dashboard_statistics(&mut store, "2024-01-01".to_string(), "2024-01-31".to_string()),
        Ok(DashboardStatistics {
            total_minutes_played: 120,
            total_games_played: 3,
            total_games_completed: 2,
        })
    );
    assert_eq!(
        get_dashboard_statistics(&mut store, "2024-01-20".to_string(), "2024-01-20".to_string()),
        Ok(DashboardStatistics {
            total_minutes_played: 0,
            total_games_played: 0,
            total_games_completed: 0,
        })
    );
}

#[test]
fn statistics_that_do_not_fit_are_an_error() {
    let mut store = fresh();
    add_log(&mut store, entry(game(1, "A", "a"), "2024-01-01", "playing", i32::MAX, 0)).unwrap();
    add_log(&mut store, entry(game(1, "A", "a"), "2024-01-02", "playing", 1, 0)).unwrap();
    assert_eq!(
        get_dashboard_statistics(&mut store, "2024-01-01".to_string(), "2024-01-02".to_string()),
        Err(StoreError::QueryExecution)
    );
    assert_eq!(
        get_dashboard_statistics(&mut store, "2024-01-01".to_string(), "2024-01-01".to_string()),
        Ok(DashboardStatistics {
            total_minutes_played: i32::MAX,
            total_games_played: 1,
            total_games_completed: 0,
        })
    );
}

#[test]
fn executable_of_an_unknown_game_is_refused_by_the_engine() {
    let mut store = fresh();
    let details = ExecutableDetails { name: "ghost.exe".to_string(), game_id: 99 };
    assert_eq!(add_executable_details(&mut store, details), Err(StoreError::QueryExecution));
    assert_eq!(get_executable_details(&mut store, "ghost.exe"), Err(StoreError::NotFound));
    add_log(&mut store, entry(game(99, "Ghost", "g"), "2024-01-01", "playing", 1, 0)).unwrap();
    let details = ExecutableDetails { name: "ghost.exe".to_string(), game_id: 99 };
    let id = add_executable_details(&mut store, details.clone()).unwrap();
    assert!(id > 0);
    assert_eq!(get_executable_details(&mut store, "ghost.exe"), Ok(details));
}

#[test]
fn store_that_cannot_be_opened_is_an_init_error() {
    let r = initialize_database("/no/such/directory/anywhere/data.db");
    assert!(matches!(r, Err(StoreError::StorageInit)));
}

#[test]
fn text_reaches_the_engine_as_a_value_not_as_statement_text() {
    let mut store = fresh();
    let odd = "Robert'); DROP TABLE logs; --";
    let id = add_log(&mut store, entry(game(1, odd, "a'b"), "2024-01-01", odd, 1, 0)).unwrap();
    let log = get_log_by_id(&mut store, id).unwrap();
    assert_eq!(log.status, odd);
    assert_eq!(log.game.title, odd);
    assert_eq!(log.game.cover_id, "a'b");
    assert_eq!(all_logs(&mut store).len(), 1);
}
