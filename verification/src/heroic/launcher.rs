//! Heroic itself: where it keeps its files, and its two libraries.

use vstd::prelude::*;

use crate::heroic::epic::EpicLibrary;
use crate::heroic::gog::GOGLibrary;
use crate::service::LauncherGame;
use crate::text::push_str;

verus! {

/// Heroic's configuration directory, before `~` is expanded.
pub const DEFAULT_HEROIC_PATH: &'static str = "~/.config/heroic";

/// What `shellexpand::tilde` may give for a path: a path that starts with `~`
/// alone or `~/` has the `~` replaced by some home directory, or is returned
/// as it is where no home directory is known.
pub open spec fn tilde_expansion_of(input: Seq<char>, output: Seq<char>) -> bool {
    if input.len() > 0 && input[0] == '~' && (input.len() == 1 || input[1] == '/') {
        output == input || exists|home: Seq<char>| output == home + input.skip(1)
    } else if input.len() == 0 || input[0] != '~' {
        output == input
    } else {
        true
    }
}

/// Calls `shellexpand::tilde`. Trusted: a leading `~` (alone or before `/`)
/// becomes the home directory, or stays where there is none; a path that does
/// not start with `~` comes back unchanged. The home directory comes from the
/// environment, so which one is left open; `~user` paths are not described.
#[verifier::external_body]
fn expand_tilde(path: &str) -> (r: String)
    ensures
        tilde_expansion_of(path@, r@),
{
    shellexpand::tilde(path).to_string()
}

pub open spec fn heroic_path_chars() -> Seq<char> {
    seq!['~', '/', '.', 'c', 'o', 'n', 'f', 'i', 'g', '/', 'h', 'e', 'r', 'o', 'i', 'c']
}

pub open spec fn config_suffix() -> Seq<char> {
    seq!['/', 's', 't', 'o', 'r', 'e', '/', 'c', 'o', 'n', 'f', 'i', 'g', '.', 'j', 's', 'o', 'n']
}

pub open spec fn backup_suffix() -> Seq<char> {
    seq!['.', 'b', 'a', 'k']
}

/// Heroic's two libraries.
pub struct Store {
    pub(crate) epic: EpicLibrary,
    pub(crate) gog: GOGLibrary,
}

impl Store {
    /// Heroic's configuration directory, `~/.config/heroic` with `~` expanded.
    pub fn heroic_path() -> (p: String)
        ensures
            tilde_expansion_of(heroic_path_chars(), p@),
    {
        proof {
            reveal_strlit("~/.config/heroic");
            assert(DEFAULT_HEROIC_PATH@ =~= heroic_path_chars());
        }
        expand_tilde(DEFAULT_HEROIC_PATH)
    }

    /// Both libraries under Heroic's configuration directory.
    pub fn new() -> (r: Self)
        ensures
            tilde_expansion_of(heroic_path_chars(), r.epic_library().base_path()),
            tilde_expansion_of(heroic_path_chars(), r.gog_library().base_path()),
    {
        Self {
            epic: EpicLibrary::new(Self::heroic_path()),
            gog: GOGLibrary::new(Self::heroic_path()),
        }
    }

    /// Both libraries under a given directory.
    pub fn with_base(base: &String) -> (r: Self)
        ensures
            r.epic_library().base_path() == base@,
            r.gog_library().base_path() == base@,
    {
        Self { epic: EpicLibrary::new(base.clone()), gog: GOGLibrary::new(base.clone()) }
    }

    pub closed spec fn epic_library(&self) -> EpicLibrary {
        self.epic
    }

    pub closed spec fn gog_library(&self) -> GOGLibrary {
        self.gog
    }

    pub fn epic(&self) -> (r: &EpicLibrary)
        ensures
            *r == self.epic_library(),
    {
        &self.epic
    }

    pub fn gog(&self) -> (r: &GOGLibrary)
        ensures
            *r == self.gog_library(),
    {
        &self.gog
    }

    /// The launcher's games: the Epic games, then the GOG games.
    pub fn all_games(epic_games: Vec<LauncherGame>, gog_games: Vec<LauncherGame>) -> (games: Vec<LauncherGame>)
        ensures
            games@ == epic_games@ + gog_games@,
    {
        let mut games = epic_games;
        let mut rest = gog_games;
        games.append(&mut rest);
        games
    }

    /// The path of Heroic's `config.json` below its configuration directory.
    pub fn config_path(heroic_dir: &str) -> (p: String)
        ensures
            p@ == heroic_dir@ + config_suffix(),
    {
        let mut p = String::new();
        push_str(&mut p, heroic_dir);
        push_str(&mut p, "/store/config.json");
        proof {
            reveal_strlit("/store/config.json");
            assert(p@ =~= heroic_dir@ + config_suffix());
        }
        p
    }

    /// Where the backup of a configuration file goes: its path with `.bak` added.
    pub fn backup_path(config_path: &str) -> (p: String)
        ensures
            p@ == config_path@ + backup_suffix(),
    {
        let mut p = String::new();
        push_str(&mut p, config_path);
        push_str(&mut p, ".bak");
        proof {
            reveal_strlit(".bak");
            assert(p@ =~= config_path@ + backup_suffix());
        }
        p
    }
}

} // verus!
