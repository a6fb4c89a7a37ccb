use gxandria::heroic::categories::{app_name, custom_categories};
use gxandria::heroic::config::{install_categories, updated_config, ConfigError};
use gxandria::heroic::epic::{EpicGameData, EpicLibrary, EpicLibraryData};
use gxandria::heroic::gog::{GOGGameData, GOGLibrary, GOGLibraryData};
use gxandria::heroic::Store;
use gxandria::service::{Game, LauncherGame, StoreInfo, StoreName};
use serde_json::Value;

fn game(title: &str, genres: &[&str], info: StoreInfo) -> Game {
    Game {
        title: title.to_string(),
        summary: None,
        storyline: None,
        genres: genres.iter().map(|g| g.to_string()).collect(),
        store_info: info,
    }
}

fn parse(text: &str) -> Value {
    serde_json::from_str(text).unwrap()
}

fn sample_games() -> Vec<Game> {
    vec![
        game("Hades", &["Action", "Roguelike"], StoreInfo::Epic { id: "Min".to_string() }),
        game("Gris", &["Adventure"], StoreInfo::GOG { id: "1234".to_string() }),
        game("Dead Cells", &["Roguelike", "Action"], StoreInfo::GOG { id: "55".to_string() }),
    ]
}

#[test]
fn app_names_carry_store_suffix() {
    assert_eq!(app_name(&StoreInfo::Epic { id: "Min".to_string() }), "Min_legendary");
    assert_eq!(app_name(&StoreInfo::GOG { id: "1234".to_string() }), "1234_gog");
}

#[test]
fn categories_group_app_names_by_genre() {
    let cats = custom_categories(&sample_games());
    let mut pairs: Vec<(String, Vec<String>)> = cats.into_iter().map(|c| (c.genre, c.app_names)).collect();
    pairs.sort();
    assert_eq!(
        pairs,
        vec![
            ("Action".to_string(), vec!["Min_legendary".to_string(), "55_gog".to_string()]),
            ("Adventure".to_string(), vec!["1234_gog".to_string()]),
            ("Roguelike".to_string(), vec!["Min_legendary".to_string(), "55_gog".to_string()]),
        ]
    );
}

#[test]
fn categories_keep_repeated_genres() {
    let games = vec![game("Twice", &["RPG", "RPG"], StoreInfo::GOG { id: "t".to_string() })];
    let cats = custom_categories(&games);
    assert_eq!(cats.len(), 1);
    assert_eq!(cats[0].app_names, vec!["t_gog".to_string(), "t_gog".to_string()]);
}

#[test]
fn no_games_no_categories() {
    assert!(custom_categories(&vec![]).is_empty());
}

#[test]
fn config_gets_categories_and_keeps_the_rest() {
    let config = r#"{"games": {"hidden": ["x"], "customCategories": {"Old": ["y"]}}, "defaultSettings": {"a": 1}}"#;
    let out = updated_config(config, &sample_games()).ok().unwrap();
    let v: Value = serde_json::from_str(&out).unwrap();
    assert_eq!(v["defaultSettings"]["a"], 1);
    assert_eq!(v["games"]["hidden"][0], "x");
    let cats = &v["games"]["customCategories"];
    assert!(cats.get("Old").is_none());
    assert_eq!(cats["Action"], parse(r#"["Min_legendary", "55_gog"]"#));
    assert_eq!(cats["Adventure"], parse(r#"["1234_gog"]"#));
    assert_eq!(cats.as_object().unwrap().len(), 3);
}

#[test]
fn config_without_games_gets_them() {
    let out = updated_config("{}", &sample_games()).ok().unwrap();
    let v: Value = serde_json::from_str(&out).unwrap();
    assert_eq!(v.as_object().unwrap().len(), 1);
    assert_eq!(v["games"].as_object().unwrap().len(), 1);
    assert_eq!(v["games"]["customCategories"]["Roguelike"], parse(r#"["Min_legendary", "55_gog"]"#));
}

#[test]
fn config_update_twice_is_update_once() {
    let config = r#"{"games": {"hidden": []}, "x": 1}"#;
    let once = updated_config(config, &sample_games()).ok().unwrap();
    let twice = updated_config(&once, &sample_games()).ok().unwrap();
    assert_eq!(once, twice);
}

#[test]
fn config_output_is_pretty() {
    let out = updated_config("{}", &vec![]).ok().unwrap();
    assert_eq!(out, "{\n  \"games\": {\n    \"customCategories\": {}\n  }\n}");
}

#[test]
fn config_errors() {
    assert!(matches!(updated_config("not json", &vec![]), Err(ConfigError::Parse(_))));
    assert!(matches!(updated_config("[1, 2]", &vec![]), Err(ConfigError::RootNotObject)));
    assert!(matches!(updated_config(r#"{"games": 3}"#, &vec![]), Err(ConfigError::GamesNotObject)));
}

#[test]
fn install_replaces_only_custom_categories() {
    let root: Value = serde_json::from_str(r#"{"games": {"a": true}}"#).unwrap();
    let cats = parse(r#"{"RPG": ["x_gog"]}"#);
    let out = match install_categories(root, cats.clone()) {
        Ok(v) => v,
        Err(_) => panic!("expected success"),
    };
    assert_eq!(out, parse(r#"{"games": {"a": true, "customCategories": {"RPG": ["x_gog"]}}}"#));
}

#[test]
fn library_paths() {
    let epic = EpicLibrary::new("/home/u/.config/heroic".to_string());
    assert_eq!(epic.library_path(), "/home/u/.config/heroic/store_cache/legendary_library.json");
    let gog = GOGLibrary::new("/h".to_string());
    assert_eq!(gog.library_path(), "/h/store_cache/gog_library.json");
}

#[test]
fn launcher_games_from_library_data() {
    let data = EpicLibraryData {
        library: vec![
            EpicGameData { app_name: "Min".to_string(), title: "Hades".to_string() },
            EpicGameData { app_name: "Fort".to_string(), title: "Fortnite".to_string() },
        ],
    };
    let games = EpicLibrary::launcher_games(&data);
    assert_eq!(games.len(), 2);
    assert_eq!(games[1].title, "Fortnite");
    assert_eq!(games[1].app_name, "Fort");
    assert_eq!(games[1].store, StoreName::Epic);
    let gog = GOGLibraryData { games: vec![GOGGameData { app_name: "12".to_string(), title: "Gris".to_string() }] };
    let games = GOGLibrary::launcher_games(&gog);
    assert_eq!(games.len(), 1);
    assert_eq!(games[0].store, StoreName::GOG);
}

#[test]
fn store_lists_epic_then_gog() {
    let e = vec![LauncherGame { title: "E".to_string(), app_name: "e".to_string(), store: StoreName::Epic }];
    let g = vec![LauncherGame { title: "G".to_string(), app_name: "g".to_string(), store: StoreName::GOG }];
    let all = Store::all_games(e, g);
    assert_eq!(all.iter().map(|x| x.title.as_str()).collect::<Vec<_>>(), vec!["E", "G"]);
}

#[test]
fn store_paths() {
    let cfg = Store::config_path("/home/u/.config/heroic");
    assert_eq!(cfg, "/home/u/.config/heroic/store/config.json");
    assert_eq!(Store::backup_path(&cfg), "/home/u/.config/heroic/store/config.json.bak");
    let s = Store::with_base(&"/base".to_string());
    assert_eq!(s.epic().library_path(), "/base/store_cache/legendary_library.json");
    assert_eq!(s.gog().library_path(), "/base/store_cache/gog_library.json");
}

#[test]
fn heroic_path_is_expanded_or_kept() {
    let p = Store::heroic_path();
    assert!(p.ends_with("/.config/heroic"));
    assert!(p == "~/.config/heroic" || !p.starts_with('~'));
    let store = Store::new();
    assert!(store.epic().library_path().starts_with(&p));
}
