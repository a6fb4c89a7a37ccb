//! The service that ties a store, a metadata client and a launcher together.

use vstd::prelude::*;

use crate::pattern::replace_all;
use crate::service::LauncherGame;
use crate::service::search::{sanitized, strip_unwanted, SearchError, TitleSearch, EDITION_PATTERN};
use crate::text::to_lowercase;

verus! {

/// The service: where found games are kept (`store`), where metadata comes
/// from (`client`) and whose library is categorised (`launcher`).
pub struct ServiceImpl<S, C, L> {
    store: S,
    client: C,
    launcher: L,
}

impl<S, C, L> ServiceImpl<S, C, L> {
    pub fn new(store: S, client: C, launcher: L) -> (r: Self)
        ensures
            r.store_part() == store,
            r.client_part() == client,
            r.launcher_part() == launcher,
    {
        Self { store, client, launcher }
    }

    pub closed spec fn store_part(&self) -> S {
        self.store
    }

    pub closed spec fn client_part(&self) -> C {
        self.client
    }

    pub closed spec fn launcher_part(&self) -> L {
        self.launcher
    }

    pub fn store(&self) -> (r: &S)
        ensures
            *r == self.store_part(),
    {
        &self.store
    }

    pub fn client(&self) -> (r: &C)
        ensures
            *r == self.client_part(),
    {
        &self.client
    }

    pub fn launcher(&self) -> (r: &L)
        ensures
            *r == self.launcher_part(),
    {
        &self.launcher
    }

    /// The search form of a title: lower-cased, without "- ... edition" style
    /// suffixes and without the characters ®, ™, © and `.`.
    pub fn sanitize_title(&self, title: &str) -> (r: Option<String>)
        ensures
            r is Some <==> sanitized(title@) is Some,
            r matches Some(s) ==> sanitized(title@) == Some(s@),
    {
        let lowered = to_lowercase(title);
        proof {
            reveal_strlit("");
            assert(""@ =~= Seq::<char>::empty());
        }
        match replace_all(EDITION_PATTERN, lowered.as_str(), "") {
            Some(without_edition) => Some(strip_unwanted(without_edition.as_str())),
            None => None,
        }
    }

    /// Starts the search for a launcher game: the store is to be asked for
    /// the game's search title.
    pub fn begin_search(&self, game: LauncherGame) -> (r: Result<TitleSearch, SearchError>)
        ensures
            (r matches Err(SearchError::Pattern)) <==> sanitized(game.title@) is None,
            r matches Ok(t) ==> t.game == game && sanitized(game.title@) == Some(t.sanitized@),
            !(r matches Err(SearchError::NotFound { .. })),
    {
        match self.sanitize_title(game.title.as_str()) {
            Some(s) => Ok(TitleSearch { game, sanitized: s }),
            None => Err(SearchError::Pattern),
        }
    }
}

} // verus!
