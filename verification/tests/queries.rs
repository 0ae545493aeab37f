use game_log_store::query::{
    all_statuses_known, is_known_status, logs_statement, parse_sort_column, parse_sort_direction,
    recent_logs_statement, SortColumn, SortDirection,
};
use game_log_store::records::{ExecutableDetails, Game, LogData, LogUpdateData, StoreError};
use game_log_store::repository::{add_log_steps, game_is_known, new_row_id, update_outcome};
use game_log_store::statements::{
    begin_statement, commit_statement, delete_log_statement, executable_statement,
    find_game_statement, insert_executable_statement, insert_game_statement,
    insert_log_statement, log_by_id_statement, logged_game_statement, rollback_statement,
    schema_statement, statistics_statement, update_log_statement,
};
use game_log_store::text::{text_eq, text_no_later};
use game_log_store::values::{Cell, Param, Statement};

const JOINED: &str = "SELECT logs.id, logs.created_at, logs.updated_at, logs.date, logs.rating, logs.notes, logs.status, logs.minutes_played, logged_games.id, logged_games.title, logged_games.cover_id FROM logs LEFT JOIN logged_games ON logged_games.id = logs.game_id";

fn words(list: &[&str]) -> Vec<String> {
    list.iter().map(|w| w.to_string()).collect()
}

fn sample() -> LogData {
    LogData {
        date: "2024-01-01".to_string(),
        rating: 4,
        notes: "n".to_string(),
        status: "playing".to_string(),
        minutes_played: 60,
        game: Game { id: 7, title: "Hades".to_string(), cover_id: "c1".to_string() },
    }
}

#[test]
fn sort_columns_are_the_columns_of_a_log() {
    assert_eq!(parse_sort_column("id"), Some(SortColumn::Id));
    assert_eq!(parse_sort_column("created_at"), Some(SortColumn::CreatedAt));
    assert_eq!(parse_sort_column("updated_at"), Some(SortColumn::UpdatedAt));
    assert_eq!(parse_sort_column("date"), Some(SortColumn::Date));
    assert_eq!(parse_sort_column("rating"), Some(SortColumn::Rating));
    assert_eq!(parse_sort_column("notes"), Some(SortColumn::Notes));
    assert_eq!(parse_sort_column("status"), Some(SortColumn::Status));
    assert_eq!(parse_sort_column("minutes_played"), Some(SortColumn::MinutesPlayed));
    assert_eq!(parse_sort_column("game_id"), Some(SortColumn::GameId));
    assert_eq!(parse_sort_column("title"), Some(SortColumn::Title));
    assert_eq!(parse_sort_column("cover_id"), None);
    assert_eq!(parse_sort_column("logs.date"), None);
    assert_eq!(parse_sort_column("Date"), None);
    assert_eq!(parse_sort_column("date "), None);
    assert_eq!(parse_sort_column(""), None);
}

#[test]
fn sort_directions_are_asc_and_desc() {
    assert_eq!(parse_sort_direction("ASC"), Some(SortDirection::Ascending));
    assert_eq!(parse_sort_direction("DESC"), Some(SortDirection::Descending));
    assert_eq!(parse_sort_direction("desc"), None);
    assert_eq!(parse_sort_direction("ASC, id"), None);
    assert_eq!(parse_sort_direction(""), None);
}

#[test]
fn known_statuses() {
    for status in ["playing", "completed", "wishlist", "backlog", "dropped"] {
        assert!(is_known_status(status));
    }
    assert!(!is_known_status("Playing"));
    assert!(!is_known_status("playing'"));
    assert!(!is_known_status(""));
    assert!(all_statuses_known(&Vec::new()));
    assert!(all_statuses_known(&words(&["playing", "dropped"])));
    assert!(!all_statuses_known(&words(&["playing", "nope", "dropped"])));
}

#[test]
fn recent_logs_statement_without_filter() {
    let statement = recent_logs_statement(5, &Vec::new()).unwrap();
    assert_eq!(statement.sql, format!("{} ORDER BY logs.date DESC LIMIT ?1", JOINED));
    assert_eq!(statement.params, vec![Param::Integer(5)]);
}

#[test]
fn recent_logs_statement_with_filter() {
    let statement = recent_logs_statement(-3, &words(&["playing"])).unwrap();
    assert_eq!(
        statement.sql,
        format!("{} WHERE logs.status IN ('playing') ORDER BY logs.date DESC LIMIT ?1", JOINED)
    );
    assert_eq!(statement.params, vec![Param::Integer(-3)]);
    let statement =
        recent_logs_statement(1, &words(&["playing", "completed", "playing"])).unwrap();
    assert_eq!(
        statement.sql,
        format!(
            "{} WHERE logs.status IN ('playing','completed','playing') ORDER BY logs.date DESC LIMIT ?1",
            JOINED
        )
    );
    assert_eq!(recent_logs_statement(1, &words(&["x"])), Err(StoreError::InvalidQuery));
}

#[test]
fn logs_statement_splices_known_words_only() {
    let statement = logs_statement("rating", "DESC", &Vec::new()).unwrap();
    assert_eq!(statement.sql, format!("{} ORDER BY logs.rating DESC", JOINED));
    assert_eq!(statement.params, Vec::new());
    let statement = logs_statement("minutes_played", "ASC", &words(&["backlog", "dropped"]))
        .unwrap();
    assert_eq!(
        statement.sql,
        format!(
            "{} WHERE logs.status IN ('backlog','dropped') ORDER BY logs.minutes_played ASC",
            JOINED
        )
    );
    let statement = logs_statement("title", "ASC", &Vec::new()).unwrap();
    assert_eq!(statement.sql, format!("{} ORDER BY logged_games.title ASC", JOINED));
    let statement = logs_statement("game_id", "ASC", &Vec::new()).unwrap();
    assert_eq!(statement.sql, format!("{} ORDER BY logs.game_id ASC", JOINED));
    assert_eq!(logs_statement("rating ", "DESC", &Vec::new()), Err(StoreError::InvalidQuery));
    assert_eq!(logs_statement("rating", "DOWN", &Vec::new()), Err(StoreError::InvalidQuery));
    assert_eq!(
        logs_statement("rating", "DESC", &words(&["playing", "'"])),
        Err(StoreError::InvalidQuery)
    );
}

#[test]
fn fixed_statements() {
    assert_eq!(begin_statement(), Statement { sql: "BEGIN IMMEDIATE".to_string(), params: vec![] });
    assert_eq!(commit_statement(), Statement { sql: "COMMIT".to_string(), params: vec![] });
    assert_eq!(rollback_statement(), Statement { sql: "ROLLBACK".to_string(), params: vec![] });
    assert!(schema_statement().sql.contains("CREATE TABLE IF NOT EXISTS logs "));
    assert!(schema_statement().sql.contains("CREATE TABLE IF NOT EXISTS logged_games "));
    assert!(schema_statement().sql.contains("CREATE TABLE IF NOT EXISTS executable_details "));
    assert_eq!(schema_statement().params, Vec::new());
    assert_eq!(
        delete_log_statement(9),
        Statement {
            sql: "DELETE FROM logs WHERE id = ?1".to_string(),
            params: vec![Param::Integer(9)]
        }
    );
    assert_eq!(
        find_game_statement(-2),
        Statement {
            sql: "SELECT id FROM logged_games WHERE id = ?1".to_string(),
            params: vec![Param::Integer(-2)]
        }
    );
    assert_eq!(
        logged_game_statement(3),
        Statement {
            sql: "SELECT id, title, cover_id FROM logged_games WHERE id = ?1".to_string(),
            params: vec![Param::Integer(3)]
        }
    );
    assert_eq!(
        log_by_id_statement(4),
        Statement { sql: format!("{} WHERE logs.id = ?1", JOINED), params: vec![Param::Integer(4)] }
    );
    assert_eq!(
        executable_statement("a.exe"),
        Statement {
            sql: "SELECT executable_name, game_id FROM executable_details WHERE executable_name = ?1"
                .to_string(),
            params: vec![Param::Text("a.exe".to_string())]
        }
    );
    assert_eq!(
        statistics_statement("2024-01-01", "2024-01-31"),
        Statement {
            sql: "SELECT date, status, minutes_played FROM logs WHERE date BETWEEN ?1 AND ?2"
                .to_string(),
            params: vec![
                Param::Text("2024-01-01".to_string()),
                Param::Text("2024-01-31".to_string())
            ]
        }
    );
}

#[test]
fn statements_that_store_rows_bind_every_value() {
    let data = sample();
    assert_eq!(
        insert_game_statement(&data.game),
        Statement {
            sql: "INSERT INTO logged_games (id, title, cover_id) VALUES (?1, ?2, ?3)".to_string(),
            params: vec![
                Param::Integer(7),
                Param::Text("Hades".to_string()),
                Param::Text("c1".to_string())
            ]
        }
    );
    assert_eq!(
        insert_log_statement(&data),
        Statement {
            sql: "INSERT INTO logs (game_id, date, rating, notes, status, minutes_played) VALUES (?1, ?2, ?3, ?4, ?5, ?6)".to_string(),
            params: vec![
                Param::Integer(7),
                Param::Text("2024-01-01".to_string()),
                Param::Integer(4),
                Param::Text("n".to_string()),
                Param::Text("playing".to_string()),
                Param::Integer(60)
            ]
        }
    );
    let update = LogUpdateData {
        id: 12,
        date: "2024-02-02".to_string(),
        rating: 1,
        notes: "m".to_string(),
        status: "dropped".to_string(),
        minutes_played: 5,
    };
    assert_eq!(
        update_log_statement(&update),
        Statement {
            sql: "UPDATE logs SET date = ?1, rating = ?2, notes = ?3, status = ?4, minutes_played = ?5, updated_at = CURRENT_TIMESTAMP WHERE id = ?6".to_string(),
            params: vec![
                Param::Text("2024-02-02".to_string()),
                Param::Integer(1),
                Param::Text("m".to_string()),
                Param::Text("dropped".to_string()),
                Param::Integer(5),
                Param::Integer(12)
            ]
        }
    );
    let details = ExecutableDetails { name: "h.exe".to_string(), game_id: 7 };
    assert_eq!(
        insert_executable_statement(&details),
        Statement {
            sql: "INSERT INTO executable_details (executable_name, game_id) VALUES (?1, ?2)"
                .to_string(),
            params: vec![Param::Text("h.exe".to_string()), Param::Integer(7)]
        }
    );
}

#[test]
fn new_log_of_a_new_game_stores_the_game_first() {
    let data = sample();
    let steps = add_log_steps(&data, false);
    assert_eq!(steps, vec![insert_game_statement(&data.game), insert_log_statement(&data)]);
}

#[test]
fn new_log_of_a_known_game_stores_the_log_alone() {
    let data = sample();
    let steps = add_log_steps(&data, true);
    assert_eq!(steps, vec![insert_log_statement(&data)]);
    let mut other = sample();
    other.game.title = "Hades II".to_string();
    other.game.cover_id = "c2".to_string();
    assert_eq!(add_log_steps(&other, true), steps);
}

#[test]
fn a_game_is_known_when_the_lookup_finds_a_row() {
    assert!(!game_is_known(&Vec::new()));
    assert!(game_is_known(&vec![vec![Cell::Integer(7)]]));
}

#[test]
fn row_ids_must_fit() {
    assert_eq!(new_row_id(1), Ok(1));
    assert_eq!(new_row_id(2147483647), Ok(i32::MAX));
    assert_eq!(new_row_id(-2147483648), Ok(i32::MIN));
    assert_eq!(new_row_id(2147483648), Err(StoreError::QueryExecution));
    assert_eq!(new_row_id(-2147483649), Err(StoreError::QueryExecution));
    assert_eq!(new_row_id(i64::MAX), Err(StoreError::QueryExecution));
}

#[test]
fn an_update_that_changed_no_row_found_no_log() {
    assert_eq!(update_outcome(0, 5), Err(StoreError::NotFound));
    assert_eq!(update_outcome(1, 5), Ok(5));
    assert_eq!(update_outcome(3, -5), Ok(-5));
}

#[test]
fn text_is_equal_character_by_character() {
    assert!(text_eq("", ""));
    assert!(text_eq("wishlist", "wishlist"));
    assert!(!text_eq("wishlist", "wishlisT"));
    assert!(!text_eq("wishlist", "wishlis"));
    assert!(!text_eq("", "a"));
    assert!(text_eq("caf\u{e9}", "caf\u{e9}"));
    assert!(!text_eq("cafe", "caf\u{e9}"));
}

#[test]
fn text_is_ordered_by_code_point() {
    assert!(text_no_later("", ""));
    assert!(text_no_later("", "a"));
    assert!(!text_no_later("a", ""));
    assert!(text_no_later("2024-01-01", "2024-01-01"));
    assert!(text_no_later("2024-01-01", "2024-01-02"));
    assert!(!text_no_later("2024-01-02", "2024-01-01"));
    assert!(text_no_later("2024-01", "2024-01-01"));
    assert!(!text_no_later("2024-01-01", "2024-01"));
    assert!(text_no_later("9", "10") == ("9" <= "10"));
    assert!(text_no_later("Z", "a"));
    assert!(!text_no_later("a", "Z"));
    assert!(text_no_later("z", "\u{e9}"));
    assert!(text_no_later("\u{e9}", "\u{1f600}"));
    assert!(!text_no_later("\u{1f600}", "\u{ffff}"));
}
