//! The GOG library as Heroic caches it.

use vstd::prelude::*;

use crate::service::{LauncherGame, LauncherGameView, StoreName};
use crate::text::push_str;

verus! {

/// The contents of Heroic's `gog_library.json`.
pub struct GOGLibraryData {
    pub games: Vec<GOGGameData>,
}

/// One entry of the GOG library.
pub struct GOGGameData {
    pub app_name: String,
    pub title: String,
}

/// The GOG library under a Heroic configuration directory.
pub struct GOGLibrary {
    base_path: String,
}

impl GOGLibrary {
    pub fn new(base_path: String) -> (r: Self)
        ensures
            r.base_path() == base_path@,
    {
        Self { base_path }
    }

    pub closed spec fn base_path(&self) -> Seq<char> {
        self.base_path@
    }

    /// Where Heroic caches this library: `<base>/store_cache/gog_library.json`.
    pub fn library_path(&self) -> (p: String)
        ensures
            p@ == self.base_path() + library_file(),
    {
        let mut p = self.base_path.clone();
        push_str(&mut p, "/store_cache/gog_library.json");
        proof { reveal_strlit("/store_cache/gog_library.json"); }
        p
    }

    /// The launcher's view of the library's games: each entry in order, with
    /// its title and app name, marked as coming from the GOG store.
    pub fn launcher_games(data: &GOGLibraryData) -> (games: Vec<LauncherGame>)
        ensures
            games@.len() == data.games@.len(),
            forall|i: int| 0 <= i < games@.len() ==> #[trigger] games@[i]@ == (LauncherGameView {
                title: data.games@[i].title@,
                app_name: data.games@[i].app_name@,
                store: StoreName::GOG,
            }),
    {
        let mut games: Vec<LauncherGame> = Vec::new();
        let mut i: usize = 0;
        while i < data.games.len()
            invariant
                i <= data.games@.len(),
                games@.len() == i,
                forall|j: int| 0 <= j < i ==> #[trigger] games@[j]@ == (LauncherGameView {
                    title: data.games@[j].title@,
                    app_name: data.games@[j].app_name@,
                    store: StoreName::GOG,
                }),
            decreases data.games@.len() - i,
        {
            let entry = &data.games[i];
            games.push(LauncherGame {
                title: entry.title.clone(),
                app_name: entry.app_name.clone(),
                store: StoreName::GOG,
            });
            i = i + 1;
        }
        games
    }
}

/// The path of the library file below the base directory.
pub open spec fn library_file() -> Seq<char> {
    seq!['/', 's', 't', 'o', 'r', 'e', '_', 'c', 'a', 'c', 'h', 'e', '/', 'g', 'o', 'g', '_', 'l', 'i', 'b', 'r', 'a', 'r', 'y', '.', 'j', 's', 'o', 'n']
}

} // verus!
