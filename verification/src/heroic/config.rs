//! Heroic's `config.json`: writing the custom categories into it.

use vstd::prelude::*;

use crate::heroic::categories::{categories_map, custom_categories, distinct_genres, expected_categories, names_view};
use crate::json::{
    empty_map, json_map_contents, json_object_contents, json_pretty, json_parsed, json_string_array,
    map_insert, map_remove, object_value, parse_json, pretty_json, string_array, value_into_object, views,
};
use crate::service::Game;

verus! {

/// Why a configuration could not be rewritten.
pub enum ConfigError {
    /// The text is not JSON.
    Parse(serde_json::Error),
    /// The document is not a JSON object.
    RootNotObject,
    /// The document's `games` entry is not a JSON object.
    GamesNotObject,
    /// The updated document could not be written out.
    Serialize(serde_json::Error),
}

pub open spec fn games_key() -> Seq<char> {
    seq!['g', 'a', 'm', 'e', 's']
}

pub open spec fn custom_categories_key() -> Seq<char> {
    seq!['c', 'u', 's', 't', 'o', 'm', 'C', 'a', 't', 'e', 'g', 'o', 'r', 'i', 'e', 's']
}

/// The JSON contents the categories of a list of games are written as: each
/// genre maps to the array of its app names.
pub open spec fn categories_json_contents(games: Seq<Game>) -> Map<Seq<char>, serde_json::Value> {
    Map::new(
        |genre: Seq<char>| expected_categories(games).contains_key(genre),
        |genre: Seq<char>| json_string_array(expected_categories(games)[genre]),
    )
}

/// The `games` object a document starts from: its own, or an empty one where
/// it has none (`None` where its `games` entry is no object).
pub open spec fn games_contents(root: Map<Seq<char>, serde_json::Value>) -> Option<Map<Seq<char>, serde_json::Value>> {
    if root.contains_key(games_key()) {
        json_object_contents(root[games_key()])
    } else {
        Some(Map::empty())
    }
}

/// `out` is `root` with `games.customCategories` set to `cats`: every other
/// entry of the document and of its `games` object is kept, and a missing
/// `games` object is created.
pub open spec fn categories_installed(root: serde_json::Value, cats: serde_json::Value, out: serde_json::Value) -> bool {
    match (json_object_contents(root), json_object_contents(out)) {
        (Some(rc), Some(oc)) => {
            &&& games_contents(rc) is Some
            &&& oc.contains_key(games_key())
            &&& oc == rc.insert(games_key(), oc[games_key()])
            &&& json_object_contents(oc[games_key()]) == Some(games_contents(rc)->0.insert(custom_categories_key(), cats))
        },
        _ => false,
    }
}

/// `out` is the document read from `text` with `games.customCategories` set
/// to the JSON object of the custom categories of `games`.
pub open spec fn config_rewritten(text: Seq<char>, games: Seq<Game>, out: serde_json::Value) -> bool {
    match (json_parsed(text), json_object_contents(out)) {
        (Some(root), Some(oc)) => match json_object_contents(oc[games_key()]) {
            Some(gc) => {
                &&& categories_installed(root, gc[custom_categories_key()], out)
                &&& json_object_contents(gc[custom_categories_key()]) == Some(categories_json_contents(games))
            },
            None => false,
        },
        _ => false,
    }
}

/// Installing categories replaces, it does not accumulate: installing the
/// same categories into an updated document again changes no entry of the
/// document and no entry of its `games` object.
pub proof fn law_install_twice(root: serde_json::Value, cats: serde_json::Value, once: serde_json::Value, twice: serde_json::Value)
    requires
        categories_installed(root, cats, once),
        categories_installed(once, cats, twice),
    ensures
        json_object_contents(twice)->0.dom() == json_object_contents(once)->0.dom(),
        forall|k: Seq<char>| k != games_key() && #[trigger] json_object_contents(once)->0.contains_key(k)
            ==> json_object_contents(twice)->0[k] == json_object_contents(once)->0[k],
        json_object_contents(json_object_contents(twice)->0[games_key()])
            == json_object_contents(json_object_contents(once)->0[games_key()]),
{
    let oc1 = json_object_contents(once)->0;
    let oc2 = json_object_contents(twice)->0;
    let g1 = json_object_contents(oc1[games_key()])->0;
    assert(games_contents(oc1) == Some(g1));
    assert(g1.insert(custom_categories_key(), cats) =~= g1);
    assert(oc2.dom() =~= oc1.dom());
}

/// The JSON object of the custom categories of some games: each genre maps to
/// the array of the app names filed under it.
pub fn categories_json(games: &Vec<Game>) -> (v: serde_json::Value)
    ensures
        json_object_contents(v) == Some(categories_json_contents(games@)),
{
    let cats = custom_categories(games);
    let mut m = empty_map();
    let mut i: usize = 0;
    while i < cats.len()
        invariant
            i <= cats@.len(),
            distinct_genres(cats@),
            forall|g: Seq<char>| #[trigger] json_map_contents(m).contains_key(g) <==> exists|j: int| 0 <= j < i && #[trigger] cats@[j].genre@ == g,
            forall|j: int| 0 <= j < i ==> json_map_contents(m)[#[trigger] cats@[j].genre@] == json_string_array(names_view(cats@[j].app_names@)),
        decreases cats@.len() - i,
    {
        let genre = cats[i].genre.clone();
        let names = cats[i].app_names.clone();
        assert(views(names@) =~= names_view(cats@[i as int].app_names@)) by {
            assert forall|k: int| 0 <= k < names@.len() implies names@[k] == cats@[i as int].app_names@[k] by {
                assert(vstd::pervasive::cloned::<String>(cats@[i as int].app_names@[k], names@[k]));
            }
        }
        let ghost before = json_map_contents(m);
        let value = string_array(names);
        map_insert(&mut m, genre, value);
        assert forall|j: int| 0 <= j < i + 1 implies json_map_contents(m)[#[trigger] cats@[j].genre@] == json_string_array(names_view(cats@[j].app_names@)) by {
            if j < i {
                assert(cats@[j].genre@ != cats@[i as int].genre@);
            }
        }
        assert forall|g: Seq<char>| #[trigger] json_map_contents(m).contains_key(g) <==> exists|j: int| 0 <= j < i + 1 && #[trigger] cats@[j].genre@ == g by {
            if json_map_contents(m).contains_key(g) && g != cats@[i as int].genre@ {
                assert(before.contains_key(g));
            }
            if exists|j: int| 0 <= j < i + 1 && #[trigger] cats@[j].genre@ == g {
                let j = choose|j: int| 0 <= j < i + 1 && #[trigger] cats@[j].genre@ == g;
                if j < i {
                    assert(before.contains_key(g));
                }
            }
        }
        i = i + 1;
    }
    let v = object_value(m);
    proof {
        let expected = categories_json_contents(games@);
        assert forall|g: Seq<char>| #[trigger] json_map_contents(m).contains_key(g) implies json_map_contents(m)[g] == expected[g] by {
            let j = choose|j: int| 0 <= j < cats@.len() && #[trigger] cats@[j].genre@ == g;
            assert(categories_map(cats@).contains_key(g));
            let k = choose|k: int| 0 <= k < cats@.len() && #[trigger] cats@[k].genre@ == g;
            assert(k == j);
        }
        assert forall|g: Seq<char>| expected.contains_key(g) implies #[trigger] json_map_contents(m).contains_key(g) by {
            assert(categories_map(cats@).contains_key(g));
        }
        assert(json_map_contents(m) =~= expected);
    }
    v
}

/// Sets `games.customCategories` of a JSON document to `cats`, creating the
/// `games` object where the document has none. Fails where the document, or
/// its `games` entry, is not an object.
pub fn install_categories(root: serde_json::Value, cats: serde_json::Value) -> (r: Result<serde_json::Value, ConfigError>)
    ensures
        (r matches Err(ConfigError::RootNotObject)) <==> json_object_contents(root) is None,
        (r matches Err(ConfigError::GamesNotObject)) <==> (json_object_contents(root) is Some
            && games_contents(json_object_contents(root)->0) is None),
        r is Ok <==> (json_object_contents(root) is Some && games_contents(json_object_contents(root)->0) is Some),
        r matches Ok(out) ==> categories_installed(root, cats, out),
{
    let mut root_map = match value_into_object(root) {
        Ok(m) => m,
        Err(_) => { return Err(ConfigError::RootNotObject); },
    };
    let ghost rc = json_map_contents(root_map);
    proof {
        reveal_strlit("games");
        assert("games"@ =~= games_key());
    }
    let games_entry = map_remove(&mut root_map, "games");
    let mut games_map = match games_entry {
        None => empty_map(),
        Some(g) => match value_into_object(g) {
            Ok(m) => m,
            Err(_) => { return Err(ConfigError::GamesNotObject); },
        },
    };
    assert(json_map_contents(games_map) =~= games_contents(rc)->0);
    proof {
        reveal_strlit("customCategories");
        assert("customCategories"@ =~= custom_categories_key());
    }
    map_insert(&mut games_map, "customCategories".to_string(), cats);
    let games_value = object_value(games_map);
    map_insert(&mut root_map, "games".to_string(), games_value);
    let out = object_value(root_map);
    proof {
        let oc = json_map_contents(root_map);
        assert(oc =~= rc.insert(games_key(), games_value));
    }
    Ok(out)
}

/// The configuration text with its custom categories replaced by those of
/// `games`, pretty-printed.
pub fn updated_config(config_text: &str, games: &Vec<Game>) -> (r: Result<String, ConfigError>)
    ensures
        (r matches Err(ConfigError::Parse(_))) <==> json_parsed(config_text@) is None,
        (r matches Err(ConfigError::RootNotObject)) <==> (json_parsed(config_text@) matches Some(root)
            && json_object_contents(root) is None),
        (r matches Err(ConfigError::GamesNotObject)) <==> (json_parsed(config_text@) matches Some(root)
            && json_object_contents(root) is Some
            && games_contents(json_object_contents(root)->0) is None),
        r matches Ok(text) ==> exists|out: serde_json::Value|
            #[trigger] config_rewritten(config_text@, games@, out) && json_pretty(out) == Some(text@),
        r matches Err(ConfigError::Serialize(_)) ==> exists|out: serde_json::Value|
            #[trigger] config_rewritten(config_text@, games@, out) && json_pretty(out) is None,
{
    let cats = categories_json(games);
    let root = match parse_json(config_text) {
        Ok(v) => v,
        Err(e) => { return Err(ConfigError::Parse(e)); },
    };
    let out = match install_categories(root, cats) {
        Ok(v) => v,
        Err(e) => { return Err(e); },
    };
    proof {
        let oc = json_object_contents(out)->0;
        let gc = json_object_contents(oc[games_key()])->0;
        assert(gc[custom_categories_key()] == cats);
        assert(config_rewritten(config_text@, games@, out));
    }
    match pretty_json(&out) {
        Ok(text) => Ok(text),
        Err(e) => Err(ConfigError::Serialize(e)),
    }
}

} // verus!
