//! The Epic Games library as Heroic caches it.

use vstd::prelude::*;

use crate::service::{LauncherGame, LauncherGameView, StoreName};
use crate::text::push_str;

verus! {

/// The contents of Heroic's `legendary_library.json`.
pub struct EpicLibraryData {
    pub library: Vec<EpicGameData>,
}

/// One entry of the Epic Games library.
pub struct EpicGameData {
    pub app_name: String,
    pub title: String,
}

/// The Epic Games library under a Heroic configuration directory.
pub struct EpicLibrary {
    base_path: String,
}

impl EpicLibrary {
    pub fn new(base_path: String) -> (r: Self)
        ensures
            r.base_path() == base_path@,
    {
        Self { base_path }
    }

    pub closed spec fn base_path(&self) -> Seq<char> {
        self.base_path@
    }

    /// Where Heroic caches this library: `<base>/store_cache/legendary_library.json`.
    pub fn library_path(&self) -> (p: String)
        ensures
            p@ == self.base_path() + library_file(),
    {
        let mut p = self.base_path.clone();
        push_str(&mut p, "/store_cache/legendary_library.json");
        proof { reveal_strlit("/store_cache/legendary_library.json"); }
        p
    }

    /// The launcher's view of the library's games: each entry in order, with
    /// its title and app name, marked as coming from the Epic store.
    pub fn launcher_games(data: &EpicLibraryData) -> (games: Vec<LauncherGame>)
        ensures
            games@.len() == data.library@.len(),
            forall|i: int| 0 <= i < games@.len() ==> #[trigger] games@[i]@ == (LauncherGameView {
                title: data.library@[i].title@,
                app_name: data.library@[i].app_name@,
                store: StoreName::Epic,
            }),
    {
        let mut games: Vec<LauncherGame> = Vec::new();
        let mut i: usize = 0;
        while i < data.library.len()
            invariant
                i <= data.library@.len(),
                games@.len() == i,
                forall|j: int| 0 <= j < i ==> #[trigger] games@[j]@ == (LauncherGameView {
                    title: data.library@[j].title@,
                    app_name: data.library@[j].app_name@,
                    store: StoreName::Epic,
                }),
            decreases data.library@.len() - i,
        {
            let entry = &data.library[i];
            games.push(LauncherGame {
                title: entry.title.clone(),
                app_name: entry.app_name.clone(),
                store: StoreName::Epic,
            });
            i = i + 1;
        }
        games
    }
}

/// The path of the library file below the base directory.
pub open spec fn library_file() -> Seq<char> {
    seq!['/', 's', 't', 'o', 'r', 'e', '_', 'c', 'a', 'c', 'h', 'e', '/', 'l', 'e', 'g', 'e', 'n', 'd', 'a', 'r', 'y', '_', 'l', 'i', 'b', 'r', 'a', 'r', 'y', '.', 'j', 's', 'o', 'n']
}

} // verus!
