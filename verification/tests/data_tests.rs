use gxandria::igdb::{
    cached_genre, game_search_query, genre_key, metadata_of, query_body, resource_url, token_query, ApiGameSummary,
    GenreError,
};
use gxandria::service::{Game, StoreInfo};
use gxandria::sqlite::{like_pattern, RowError, SqliteGame};
use gxandria::text::{push_str, to_decimal};

#[test]
fn decimal_digits() {
    assert_eq!(to_decimal(0), "0");
    assert_eq!(to_decimal(7), "7");
    assert_eq!(to_decimal(12345), "12345");
    assert_eq!(to_decimal(u64::MAX), u64::MAX.to_string());
}

#[test]
fn text_helpers() {
    let mut s = "ab".to_string();
    push_str(&mut s, "cd");
    assert_eq!(s, "abcd");
}

#[test]
fn igdb_requests() {
    assert_eq!(
        token_query("id", "sec"),
        "client_id=id&client_secret=sec&grant_type=client_credentials"
    );
    assert_eq!(resource_url("games"), "https://api.igdb.com/v4/games");
    assert_eq!(query_body(None), "fields *; limit 500;");
    assert_eq!(query_body(Some("fields name;".to_string())), "fields name;");
    assert_eq!(game_search_query("hades"), "fields *; search \"hades\"; limit 50;");
}

#[test]
fn genre_cache_keys() {
    assert_eq!(genre_key(12), "genre:12");
    assert_eq!(genre_key(0), "genre:0");
    assert!(matches!(cached_genre(5, None), Err(GenreError::NotCached(5))));
    assert_eq!(cached_genre(5, Some("{}".to_string())).ok(), Some("{}".to_string()));
}

#[test]
fn metadata_skips_missing_genres() {
    let summary = ApiGameSummary {
        name: "Hades".to_string(),
        summary: Some("s".to_string()),
        storyline: None,
        genres: vec![1, 2, 3],
    };
    let m = metadata_of(summary, vec![Some("Action".to_string()), None, Some("RPG".to_string())]);
    assert_eq!(m.title, "Hades");
    assert_eq!(m.summary, Some("s".to_string()));
    assert_eq!(m.genres, vec!["Action".to_string(), "RPG".to_string()]);
}

fn hades() -> Game {
    Game {
        title: "Hades".to_string(),
        summary: Some("Defy the god".to_string()),
        storyline: None,
        genres: vec!["Action".to_string(), "Rogue \"like\"".to_string()],
        store_info: StoreInfo::Epic { id: "Min".to_string() },
    }
}

#[test]
fn row_of_game() {
    let row = SqliteGame::from_game(&hades());
    assert_eq!(row.id, "Hades");
    assert_eq!(row.name, "Hades");
    assert_eq!(row.genres, Some("[\"Action\",\"Rogue \\\"like\\\"\"]".to_string()));
    assert_eq!(row.store_name, "epic");
    assert_eq!(row.store_id, "Min");
}

#[test]
fn row_round_trip() {
    let g = SqliteGame::from_game(&hades()).to_game().ok().unwrap();
    assert_eq!(g.title, "Hades");
    assert_eq!(g.summary, Some("Defy the god".to_string()));
    assert_eq!(g.genres, hades().genres);
    match g.store_info {
        StoreInfo::Epic { id } => assert_eq!(id, "Min"),
        StoreInfo::GOG { .. } => panic!("wrong store"),
    }
}

fn row(store: &str, genres: Option<&str>) -> SqliteGame {
    SqliteGame {
        id: "x".to_string(),
        name: "X".to_string(),
        summary: None,
        storyline: None,
        genres: genres.map(|g| g.to_string()),
        store_name: store.to_string(),
        store_id: "7".to_string(),
    }
}

#[test]
fn row_errors() {
    match row("steam", Some("[]")).to_game() {
        Err(RowError::UnknownStore(name)) => assert_eq!(name, "steam"),
        _ => panic!("expected unknown store"),
    }
    assert!(matches!(row("gog", Some("{oops")).to_game(), Err(RowError::Genres(_))));
    let g = row("gog", None).to_game().ok().unwrap();
    assert!(g.genres.is_empty());
}

#[test]
fn rows_that_are_not_games_are_skipped() {
    let rows = vec![row("gog", Some("[\"A\"]")), row("steam", None), row("epic", Some("bad"))];
    let games = SqliteGame::games_of_rows(&rows);
    assert_eq!(games.len(), 1);
    assert_eq!(games[0].genres, vec!["A".to_string()]);
}

#[test]
fn like_patterns() {
    assert_eq!(like_pattern("hades"), "%hades%");
}
