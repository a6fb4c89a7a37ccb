use gxandria::service::progress::CategorizeProgress;
use gxandria::service::search::{closest_metadata, closest_stored, strip_unwanted, SearchError, StoreLookup, TitleSearch};
use gxandria::service::service::ServiceImpl;
use gxandria::service::{Game, GameMetadata, LauncherGame, StoreInfo, StoreName};

fn game(title: &str, genres: &[&str], info: StoreInfo) -> Game {
    Game {
        title: title.to_string(),
        summary: None,
        storyline: None,
        genres: genres.iter().map(|g| g.to_string()).collect(),
        store_info: info,
    }
}

fn meta(title: &str, genres: &[&str]) -> GameMetadata {
    GameMetadata {
        title: title.to_string(),
        summary: Some(format!("about {title}")),
        storyline: None,
        genres: genres.iter().map(|g| g.to_string()).collect(),
    }
}

fn launcher_game(title: &str, app: &str, store: StoreName) -> LauncherGame {
    LauncherGame { title: title.to_string(), app_name: app.to_string(), store }
}

fn service() -> ServiceImpl<(), (), ()> {
    ServiceImpl::new((), (), ())
}

#[test]
fn store_name_labels() {
    assert_eq!(String::from(StoreName::Epic), "epic");
    assert_eq!(String::from(StoreName::GOG), "gog");
}

#[test]
fn sanitize_drops_edition_suffix() {
    let svc = service();
    assert_eq!(
        svc.sanitize_title("The Witcher 3: Wild Hunt - Game of the Year Edition").unwrap(),
        "the witcher 3"
    );
    assert_eq!(svc.sanitize_title("DOOM - Deluxe Edition").unwrap(), "doom");
}

#[test]
fn sanitize_drops_marks_and_dots() {
    let svc = service();
    assert_eq!(svc.sanitize_title("Assassin's Creed® Origins").unwrap(), "assassin's creed origins");
    assert_eq!(svc.sanitize_title("Rainbow Six™ Siege©").unwrap(), "rainbow six siege");
    assert_eq!(svc.sanitize_title("Mr. Robot").unwrap(), "mr robot");
}

#[test]
fn sanitize_keeps_plain_hyphens() {
    let svc = service();
    assert_eq!(svc.sanitize_title("Half-Life 2").unwrap(), "half-life 2");
    assert_eq!(svc.sanitize_title("").unwrap(), "");
}

#[test]
fn sanitize_lowercases_beyond_ascii() {
    let svc = service();
    assert_eq!(svc.sanitize_title("ÉCOLE Mixed").unwrap(), "école mixed");
}

#[test]
fn closest_follows_edit_distance() {
    // "kitten" is 3 edits from "sitting", "sittin" is 1.
    let games = vec![
        game("kitten", &[], StoreInfo::GOG { id: "1".to_string() }),
        game("Sittin", &[], StoreInfo::GOG { id: "2".to_string() }),
    ];
    assert_eq!(closest_stored(&"sitting".to_string(), games).title, "Sittin");
    // both "kitten" and "sitter" are 3 edits away: the first one wins.
    let tie = vec![
        game("kitten", &[], StoreInfo::GOG { id: "1".to_string() }),
        game("sitter", &[], StoreInfo::GOG { id: "2".to_string() }),
    ];
    assert_eq!(closest_stored(&"sitting".to_string(), tie).title, "kitten");
    let found = vec![meta("SITTER", &[]), meta("Kitten", &[]), meta("sitting", &[])];
    assert_eq!(closest_metadata(&"sitting".to_string(), found).title, "sitting");
}

#[test]
fn strip_unwanted_only_drops_listed_chars() {
    assert_eq!(strip_unwanted("a.b®c™d©e-f:g"), "abcde-f:g");
}

#[test]
fn begin_search_keeps_game_and_sanitized_title() {
    let svc = service();
    let lg = launcher_game("Celeste.", "celeste-app", StoreName::GOG);
    let search = svc.begin_search(lg).ok().unwrap();
    assert_eq!(search.sanitized, "celeste");
    assert_eq!(search.game.app_name, "celeste-app");
}

#[test]
fn store_hit_picks_closest_title() {
    let search = TitleSearch { game: launcher_game("Portal", "p", StoreName::Epic), sanitized: "portal".to_string() };
    let stored = vec![
        game("Portal 2", &["Puzzle"], StoreInfo::Epic { id: "p2".to_string() }),
        game("PORTAL", &["Puzzle"], StoreInfo::Epic { id: "p1".to_string() }),
        game("Portal Knights", &["RPG"], StoreInfo::Epic { id: "pk".to_string() }),
    ];
    match search.after_store(stored) {
        StoreLookup::Found(g) => assert_eq!(g.title, "PORTAL"),
        StoreLookup::AskClient(_) => panic!("expected a stored game"),
    }
}

#[test]
fn store_tie_keeps_first() {
    let games = vec![
        game("abd", &[], StoreInfo::GOG { id: "1".to_string() }),
        game("abe", &[], StoreInfo::GOG { id: "2".to_string() }),
    ];
    let g = closest_stored(&"abc".to_string(), games);
    assert_eq!(g.title, "abd");
}

#[test]
fn store_miss_asks_client() {
    let search = TitleSearch { game: launcher_game("Portal", "p", StoreName::Epic), sanitized: "portal".to_string() };
    match search.after_store(vec![]) {
        StoreLookup::AskClient(s) => assert_eq!(s.sanitized, "portal"),
        StoreLookup::Found(_) => panic!("expected to ask the client"),
    }
}

#[test]
fn client_hit_builds_game_for_launcher() {
    let search = TitleSearch { game: launcher_game("Hades", "Min", StoreName::Epic), sanitized: "hades".to_string() };
    let found = vec![meta("Hades II", &["Roguelike"]), meta("Hades", &["Action", "Roguelike"])];
    let g = search.after_client(found).ok().unwrap();
    assert_eq!(g.title, "Hades");
    assert_eq!(g.genres, vec!["Action".to_string(), "Roguelike".to_string()]);
    assert_eq!(g.summary, Some("about Hades".to_string()));
    match g.store_info {
        StoreInfo::Epic { id } => assert_eq!(id, "Min"),
        StoreInfo::GOG { .. } => panic!("wrong store"),
    }
    let again = search.after_upsert(game("Hades", &[], StoreInfo::GOG { id: "x".to_string() }));
    assert_eq!(again.title, "Hades");
}

#[test]
fn client_hit_for_gog_game() {
    let search = TitleSearch { game: launcher_game("Gris", "1234", StoreName::GOG), sanitized: "gris".to_string() };
    let g = search.after_client(vec![meta("GRIS", &["Adventure"])]).ok().unwrap();
    match g.store_info {
        StoreInfo::GOG { id } => assert_eq!(id, "1234"),
        StoreInfo::Epic { .. } => panic!("wrong store"),
    }
}

#[test]
fn client_miss_is_not_found() {
    let search = TitleSearch { game: launcher_game("Nope Edition", "n", StoreName::Epic), sanitized: "nope".to_string() };
    match search.after_client(vec![]) {
        Err(SearchError::NotFound { sanitized, title }) => {
            assert_eq!(sanitized, "nope");
            assert_eq!(title, "Nope Edition");
        }
        _ => panic!("expected not found"),
    }
}

#[test]
fn closest_metadata_uses_search_title_as_is() {
    let found = vec![meta("Zzz", &[]), meta("Celeste", &[])];
    assert_eq!(closest_metadata(&"celeste".to_string(), found).title, "Celeste");
}

#[test]
fn progress_counts_found_and_missing() {
    let mut p = CategorizeProgress::new(3);
    assert!(p.report_due());
    p.record(Some(game("A", &[], StoreInfo::GOG { id: "a".to_string() })));
    assert!(!p.report_due());
    p.record(None);
    p.record(Some(game("C", &[], StoreInfo::Epic { id: "c".to_string() })));
    assert_eq!(p.processed(), 3);
    assert_eq!(p.found_count(), 2);
    assert_eq!(p.not_found_count(), 1);
    let found = p.into_found();
    assert_eq!(found.iter().map(|g| g.title.clone()).collect::<Vec<_>>(), vec!["A", "C"]);
}

#[test]
fn progress_reports_every_tenth_game() {
    let mut p = CategorizeProgress::new(25);
    let mut due = vec![];
    for _ in 0..25 {
        due.push(p.report_due());
        p.record(None);
    }
    let positions: Vec<usize> = due.iter().enumerate().filter(|(_, d)| **d).map(|(i, _)| i).collect();
    assert_eq!(positions, vec![0, 10, 20]);
}

#[test]
fn service_parts_are_kept() {
    let svc = ServiceImpl::new(1u8, "client", 3i32);
    assert_eq!(*svc.store(), 1u8);
    assert_eq!(*svc.client(), "client");
    assert_eq!(*svc.launcher(), 3i32);
}
