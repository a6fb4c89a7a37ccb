//! Finding the metadata of a launcher game: first in the local store, then at
//! the metadata service, keeping the candidate whose title is closest.
//!
//! The search talks to a store and a client in turn; each step that decides
//! what to do with their answers is a function here, and the caller performs
//! the calls in between.

use vstd::prelude::*;

use crate::distance::{edit_distance, levenshtein};
use crate::pattern::regex_replaced;
use crate::service::{Game, GameMetadata, GameMetadataView, GameView, LauncherGame, LauncherGameView, StoreInfo, StoreInfoView, StoreName};
use crate::text::{lowercased, push_char, to_lowercase};

verus! {

/// Matches "- ... edition", ": ... edition" and the like at the end of a title.
pub const EDITION_PATTERN: &'static str = "(?i)\\s*[-:]\\s*.*edition";

/// The characters dropped from titles before searching.
pub open spec fn is_unwanted(c: char) -> bool {
    c == '\u{ae}' || c == '\u{2122}' || c == '\u{a9}' || c == '.'
}

/// A text without the unwanted characters, the others kept in order.
pub open spec fn without_unwanted(s: Seq<char>) -> Seq<char>
    decreases s.len(),
{
    if s.len() == 0 {
        s
    } else if is_unwanted(s.last()) {
        without_unwanted(s.drop_last())
    } else {
        without_unwanted(s.drop_last()).push(s.last())
    }
}

/// The search form of a title: lower-cased, with edition suffixes removed by
/// `EDITION_PATTERN` and the unwanted characters dropped. `None` where the
/// pattern does not compile.
pub open spec fn sanitized(title: Seq<char>) -> Option<Seq<char>> {
    match regex_replaced(EDITION_PATTERN@, lowercased(title), Seq::empty()) {
        Some(s) => Some(without_unwanted(s)),
        None => None,
    }
}

/// The characters a sanitized title keeps.
pub open spec fn kept_char() -> spec_fn(char) -> bool {
    |c: char| c != '\u{ae}' && c != '\u{2122}' && c != '\u{a9}' && c != '.'
}

/// Stripping drops exactly ®, ™, © and `.`: it keeps every other character of
/// the text, in order, so a text without them comes back unchanged.
pub proof fn law_strip_keeps_others(s: Seq<char>)
    ensures
        without_unwanted(s) == s.filter(kept_char()),
        (forall|i: int| 0 <= i < s.len() ==> #[trigger] s[i] != '\u{ae}' && s[i] != '\u{2122}'
            && s[i] != '\u{a9}' && s[i] != '.') ==> without_unwanted(s) == s,
    decreases s.len(),
{
    broadcast use Seq::lemma_filter_push;
    if s.len() == 0 {
        reveal(Seq::filter);
    } else {
        law_strip_keeps_others(s.drop_last());
        assert(s =~= s.drop_last().push(s.last()));
        assert(s.drop_last().push(s.last()).filter(kept_char()) == (if kept_char()(s.last()) {
            s.drop_last().filter(kept_char()).push(s.last())
        } else {
            s.drop_last().filter(kept_char())
        }));
        if forall|i: int| 0 <= i < s.len() ==> #[trigger] s[i] != '\u{ae}' && s[i] != '\u{2122}'
            && s[i] != '\u{a9}' && s[i] != '.' {
            assert forall|i: int| 0 <= i < s.drop_last().len() implies #[trigger] s.drop_last()[i] != '\u{ae}'
                && s.drop_last()[i] != '\u{2122}' && s.drop_last()[i] != '\u{a9}' && s.drop_last()[i] != '.' by {
                assert(s.drop_last()[i] == s[i]);
            }
            assert(s[s.len() - 1] == s.last());
        }
    }
}

proof fn lemma_without_unwanted_clean(s: Seq<char>)
    ensures
        forall|i: int| 0 <= i < without_unwanted(s).len() ==> !is_unwanted(#[trigger] without_unwanted(s)[i]),
    decreases s.len(),
{
    if s.len() > 0 {
        let rest = without_unwanted(s.drop_last());
        lemma_without_unwanted_clean(s.drop_last());
        assert forall|i: int| 0 <= i < without_unwanted(s).len() implies !is_unwanted(#[trigger] without_unwanted(s)[i]) by {
            if i < rest.len() {
                assert(without_unwanted(s)[i] == rest[i]);
            }
        }
    }
}

/// A sanitized title holds none of ®, ™, © and `.`.
pub proof fn law_sanitized_is_clean(title: Seq<char>)
    ensures
        sanitized(title) matches Some(s) ==> forall|i: int| 0 <= i < s.len() ==> !is_unwanted(#[trigger] s[i]),
{
    if let Some(r) = regex_replaced(EDITION_PATTERN@, lowercased(title), Seq::empty()) {
        lemma_without_unwanted_clean(r);
    }
}

/// Drops every unwanted character from a text.
pub fn strip_unwanted(s: &str) -> (r: String)
    ensures
        r@ == without_unwanted(s@),
        r@ == s@.filter(kept_char()),
        (forall|i: int| 0 <= i < s@.len() ==> #[trigger] s@[i] != '\u{ae}' && s@[i] != '\u{2122}'
            && s@[i] != '\u{a9}' && s@[i] != '.') ==> r@ == s@,
{
    proof {
        law_strip_keeps_others(s@);
    }
    let mut r = String::new();
    let n = s.unicode_len();
    let mut i: usize = 0;
    while i < n
        invariant
            n == s@.len(),
            i <= n,
            r@ == without_unwanted(s@.take(i as int)),
        decreases n - i,
    {
        let c = s.get_char(i);
        assert(s@.take(i + 1).drop_last() =~= s@.take(i as int));
        if !(c == '\u{ae}' || c == '\u{2122}' || c == '\u{a9}' || c == '.') {
            push_char(&mut r, c);
        }
        i = i + 1;
    }
    assert(s@.take(n as int) =~= s@);
    r
}

/// Why a search found nothing.
pub enum SearchError {
    /// The title pattern did not compile.
    Pattern,
    /// Neither the store nor the metadata service knows the title.
    NotFound { sanitized: String, title: String },
}

/// How far a stored game's title is from the searched one.
pub open spec fn stored_distance(sanitized: Seq<char>, g: Game) -> nat {
    edit_distance(lowercased(sanitized), lowercased(g.title@))
}

/// How far a title found at the metadata service is from the searched one.
pub open spec fn metadata_distance(sanitized: Seq<char>, m: GameMetadata) -> nat {
    edit_distance(sanitized, lowercased(m.title@))
}

pub open spec fn stored_distances(sanitized: Seq<char>, games: Seq<Game>) -> Seq<nat> {
    games.map_values(|g: Game| stored_distance(sanitized, g))
}

pub open spec fn metadata_distances(sanitized: Seq<char>, found: Seq<GameMetadata>) -> Seq<nat> {
    found.map_values(|m: GameMetadata| metadata_distance(sanitized, m))
}

/// `i` is the first position of a least distance.
pub open spec fn is_first_closest(ds: Seq<nat>, i: int) -> bool {
    &&& 0 <= i < ds.len()
    &&& forall|j: int| 0 <= j < ds.len() ==> ds[i] <= #[trigger] ds[j]
    &&& forall|j: int| 0 <= j < i ==> ds[i] < #[trigger] ds[j]
}

/// The game made of found metadata for a launcher game: the metadata's
/// title, texts and genres, and the launcher game's store and app name.
pub open spec fn game_for(m: GameMetadataView, lg: LauncherGameView) -> GameView {
    GameView {
        title: m.title,
        summary: m.summary,
        storyline: m.storyline,
        genres: m.genres,
        store_info: match lg.store {
            StoreName::Epic => StoreInfoView::Epic { id: lg.app_name },
            StoreName::GOG => StoreInfoView::GOG { id: lg.app_name },
        },
    }
}

/// Of a stored game list, the game whose lower-cased title is closest to the
/// lower-cased search title; the first of them on a tie.
pub fn closest_stored(sanitized: &String, games: Vec<Game>) -> (r: Game)
    requires
        games@.len() > 0,
    ensures
        exists|i: int| is_first_closest(stored_distances(sanitized@, games@), i) && r == games@[i],
        exists|i: int| 0 <= i < games@.len() && r == games@[i],
        forall|j: int| 0 <= j < games@.len() ==> edit_distance(lowercased(sanitized@), lowercased(r.title@))
            <= edit_distance(lowercased(sanitized@), lowercased(#[trigger] games@[j].title@)),
        (exists|j: int| 0 <= j < games@.len() && lowercased(#[trigger] games@[j].title@) == lowercased(sanitized@))
            ==> lowercased(r.title@) == lowercased(sanitized@),
{
    let ghost ds = stored_distances(sanitized@, games@);
    let lowered = to_lowercase(sanitized.as_str());
    let mut best: usize = 0;
    let mut best_d: usize = levenshtein(lowered.as_str(), to_lowercase(games[0].title.as_str()).as_str());
    let mut i: usize = 1;
    while i < games.len()
        invariant
            1 <= i <= games@.len(),
            ds == stored_distances(sanitized@, games@),
            lowered@ == lowercased(sanitized@),
            best < i,
            best_d == ds[best as int],
            forall|j: int| 0 <= j < i ==> ds[best as int] <= #[trigger] ds[j],
            forall|j: int| 0 <= j < best ==> ds[best as int] < #[trigger] ds[j],
        decreases games@.len() - i,
    {
        let d = levenshtein(lowered.as_str(), to_lowercase(games[i].title.as_str()).as_str());
        assert(d == ds[i as int]);
        if d < best_d {
            best = i;
            best_d = d;
        }
        i = i + 1;
    }
    let mut games = games;
    let ghost all = games@;
    let r = games.remove(best);
    assert(is_first_closest(ds, best as int));
    proof {
        let target = lowercased(sanitized@);
        assert(r == all[best as int]);
        assert forall|j: int| 0 <= j < all.len() implies edit_distance(target, lowercased(r.title@))
            <= edit_distance(target, lowercased(#[trigger] all[j].title@)) by {
            assert(ds[j] == stored_distance(sanitized@, all[j]));
        }
        let cands = all.map_values(|g: Game| lowercased(g.title@));
        if exists|j: int| 0 <= j < all.len() && lowercased(#[trigger] all[j].title@) == target {
            let j = choose|j: int| 0 <= j < all.len() && lowercased(#[trigger] all[j].title@) == target;
            assert(cands[j] == target);
            assert forall|k: int| 0 <= k < cands.len() implies edit_distance(target, lowercased(r.title@))
                <= edit_distance(target, #[trigger] cands[k]) by {
                assert(cands[k] == lowercased(all[k].title@));
            }
            law_exact_title_wins(target, lowercased(r.title@), cands);
        }
    }
    r
}

/// Of the metadata found for a title, the entry whose lower-cased title is
/// closest to the search title; the first of them on a tie.
pub fn closest_metadata(sanitized: &String, found: Vec<GameMetadata>) -> (r: GameMetadata)
    requires
        found@.len() > 0,
    ensures
        exists|i: int| is_first_closest(metadata_distances(sanitized@, found@), i) && r == found@[i],
        exists|i: int| 0 <= i < found@.len() && r == found@[i],
        forall|j: int| 0 <= j < found@.len() ==> edit_distance(sanitized@, lowercased(r.title@))
            <= edit_distance(sanitized@, lowercased(#[trigger] found@[j].title@)),
        (exists|j: int| 0 <= j < found@.len() && lowercased(#[trigger] found@[j].title@) == sanitized@)
            ==> lowercased(r.title@) == sanitized@,
{
    let ghost ds = metadata_distances(sanitized@, found@);
    let mut best: usize = 0;
    let mut best_d: usize = levenshtein(sanitized.as_str(), to_lowercase(found[0].title.as_str()).as_str());
    let mut i: usize = 1;
    while i < found.len()
        invariant
            1 <= i <= found@.len(),
            ds == metadata_distances(sanitized@, found@),
            best < i,
            best_d == ds[best as int],
            forall|j: int| 0 <= j < i ==> ds[best as int] <= #[trigger] ds[j],
            forall|j: int| 0 <= j < best ==> ds[best as int] < #[trigger] ds[j],
        decreases found@.len() - i,
    {
        let d = levenshtein(sanitized.as_str(), to_lowercase(found[i].title.as_str()).as_str());
        assert(d == ds[i as int]);
        if d < best_d {
            best = i;
            best_d = d;
        }
        i = i + 1;
    }
    let mut found = found;
    let ghost all = found@;
    let r = found.remove(best);
    assert(is_first_closest(ds, best as int));
    proof {
        assert(r == all[best as int]);
        assert forall|j: int| 0 <= j < all.len() implies edit_distance(sanitized@, lowercased(r.title@))
            <= edit_distance(sanitized@, lowercased(#[trigger] all[j].title@)) by {
            assert(ds[j] == metadata_distance(sanitized@, all[j]));
        }
        let cands = all.map_values(|m: GameMetadata| lowercased(m.title@));
        if exists|j: int| 0 <= j < all.len() && lowercased(#[trigger] all[j].title@) == sanitized@ {
            let j = choose|j: int| 0 <= j < all.len() && lowercased(#[trigger] all[j].title@) == sanitized@;
            assert(cands[j] == sanitized@);
            assert forall|k: int| 0 <= k < cands.len() implies edit_distance(sanitized@, lowercased(r.title@))
                <= edit_distance(sanitized@, #[trigger] cands[k]) by {
                assert(cands[k] == lowercased(all[k].title@));
            }
            law_exact_title_wins(sanitized@, lowercased(r.title@), cands);
        }
    }
    r
}

/// Where some candidate matches the search title exactly, the closest
/// candidate matches it exactly too.
pub proof fn law_exact_title_wins(target: Seq<char>, chosen: Seq<char>, candidates: Seq<Seq<char>>)
    requires
        forall|j: int| 0 <= j < candidates.len() ==> edit_distance(target, chosen) <= edit_distance(target, #[trigger] candidates[j]),
        exists|j: int| 0 <= j < candidates.len() && #[trigger] candidates[j] == target,
    ensures
        chosen == target,
{
    let j = choose|j: int| 0 <= j < candidates.len() && #[trigger] candidates[j] == target;
    crate::distance::law_edit_distance_zero_iff_equal(target, target);
    crate::distance::law_edit_distance_zero_iff_equal(target, chosen);
    assert(edit_distance(target, chosen) <= edit_distance(target, candidates[j]));
    assert(target == chosen);
}

/// A search under way for one launcher game, with its search title.
pub struct TitleSearch {
    pub game: LauncherGame,
    pub sanitized: String,
}

/// What the store's answer leads to.
pub enum StoreLookup {
    /// The store knew the title; this is the closest stored game.
    Found(Game),
    /// The store knew nothing; ask the metadata service with this search.
    AskClient(TitleSearch),
}

impl TitleSearch {
    /// What to do with the games the store found for the search title: keep
    /// the closest one, or, where there are none, ask the metadata service.
    pub fn after_store(self, stored: Vec<Game>) -> (r: StoreLookup)
        ensures
            stored@.len() == 0 ==> r == StoreLookup::AskClient(self),
            stored@.len() > 0 ==> (r matches StoreLookup::Found(g) && exists|i: int|
                is_first_closest(stored_distances(self.sanitized@, stored@), i) && g == stored@[i]),
            r matches StoreLookup::Found(g) ==> forall|j: int| 0 <= j < stored@.len()
                ==> edit_distance(lowercased(self.sanitized@), lowercased(g.title@))
                <= edit_distance(lowercased(self.sanitized@), lowercased(#[trigger] stored@[j].title@)),
    {
        if stored.len() == 0 {
            StoreLookup::AskClient(self)
        } else {
            StoreLookup::Found(closest_stored(&self.sanitized, stored))
        }
    }

    /// What to do with the metadata the service found: make the game of the
    /// closest entry, to be stored; or fail where there is none.
    pub fn after_client(&self, found: Vec<GameMetadata>) -> (r: Result<Game, SearchError>)
        ensures
            found@.len() == 0 ==> (r matches Err(SearchError::NotFound { sanitized, title })
                && sanitized@ == self.sanitized@ && title@ == self.game.title@),
            found@.len() > 0 ==> (r matches Ok(g) && exists|i: int|
                is_first_closest(metadata_distances(self.sanitized@, found@), i)
                && g@ == game_for(found@[i]@, self.game@)),
            r matches Ok(g) ==> forall|j: int| 0 <= j < found@.len() ==> edit_distance(self.sanitized@, lowercased(g.title@))
                <= edit_distance(self.sanitized@, lowercased(#[trigger] found@[j].title@)),
            r matches Ok(g) ==> ((exists|j: int| 0 <= j < found@.len() && lowercased(#[trigger] found@[j].title@) == self.sanitized@)
                ==> lowercased(g.title@) == self.sanitized@),
    {
        if found.len() == 0 {
            return Err(SearchError::NotFound { sanitized: self.sanitized.clone(), title: self.game.title.clone() });
        }
        let m = closest_metadata(&self.sanitized, found);
        let store_info = match self.game.store {
            StoreName::Epic => StoreInfo::Epic { id: self.game.app_name.clone() },
            StoreName::GOG => StoreInfo::GOG { id: self.game.app_name.clone() },
        };
        let g = Game {
            title: m.title,
            summary: m.summary,
            storyline: m.storyline,
            genres: m.genres,
            store_info,
        };
        Ok(g)
    }

    /// The result once the new game is stored: the closest game among the
    /// stored ones, which is the new game itself.
    pub fn after_upsert(self, stored: Game) -> (r: Game)
        ensures
            r == stored,
    {
        let mut games: Vec<Game> = Vec::new();
        games.push(stored);
        closest_stored(&self.sanitized, games)
    }
}

} // verus!
