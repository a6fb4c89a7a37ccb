//! Talking to IGDB: the requests the client sends, the keys of its genre
//! cache, and the metadata it makes of IGDB's answers.

use vstd::prelude::*;

use crate::service::{opt_view, GameMetadata, GameMetadataView};
use crate::text::{decimal, push_str, to_decimal};

verus! {

pub const IGDB_BASE_URL: &'static str = "https://api.igdb.com/v4";

pub const TWITCH_OAUTH2_URL: &'static str = "https://id.twitch.tv/oauth2/token";

/// The cache key under which it is recorded that all genres were fetched.
pub const GENRES_FETCHED_KEY: &'static str = "genres";

/// The value stored under `GENRES_FETCHED_KEY`.
pub const GENRES_FETCHED_VALUE: &'static str = "true";

/// The query string of the OAuth token request:
/// `client_id=<id>&client_secret=<secret>&grant_type=client_credentials`.
pub fn token_query(id: &str, secret: &str) -> (q: String)
    ensures
        q@ == "client_id="@ + id@ + "&client_secret="@ + secret@ + "&grant_type=client_credentials"@,
{
    let mut q = String::new();
    push_str(&mut q, "client_id=");
    push_str(&mut q, id);
    push_str(&mut q, "&client_secret=");
    push_str(&mut q, secret);
    push_str(&mut q, "&grant_type=client_credentials");
    q
}

/// The URL of an IGDB resource: `https://api.igdb.com/v4/<resource>`.
pub fn resource_url(resource: &str) -> (u: String)
    ensures
        u@ == IGDB_BASE_URL@ + "/"@ + resource@,
{
    let mut u = String::new();
    push_str(&mut u, IGDB_BASE_URL);
    push_str(&mut u, "/");
    push_str(&mut u, resource);
    u
}

/// The body of a request: the given APIcalypse query, or all fields of the
/// first 500 records.
pub fn query_body(query: Option<String>) -> (b: String)
    ensures
        b@ == match query {
            Some(q) => q@,
            None => "fields *; limit 500;"@,
        },
{
    match query {
        Some(q) => q,
        None => {
            let mut b = String::new();
            push_str(&mut b, "fields *; limit 500;");
            b
        },
    }
}

/// The query that searches IGDB's games for a title, at most 50 of them:
/// `fields *; search "<title>"; limit 50;`.
pub fn game_search_query(title: &str) -> (q: String)
    ensures
        q@ == "fields *; search \""@ + title@ + "\"; limit 50;"@,
{
    let mut q = String::new();
    push_str(&mut q, "fields *; search \"");
    push_str(&mut q, title);
    push_str(&mut q, "\"; limit 50;");
    q
}

pub open spec fn genre_key_prefix() -> Seq<char> {
    seq!['g', 'e', 'n', 'r', 'e', ':']
}

/// The cache key of a genre: `genre:<id>`.
pub fn genre_key(id: u64) -> (k: String)
    ensures
        k@ == genre_key_prefix() + decimal(id as nat),
{
    let mut k = String::new();
    push_str(&mut k, "genre:");
    proof {
        reveal_strlit("genre:");
        assert("genre:"@ =~= genre_key_prefix());
    }
    let digits = to_decimal(id);
    push_str(&mut k, digits.as_str());
    k
}

/// Why a genre could not be had.
pub enum GenreError {
    /// The genre is not among those IGDB listed.
    NotCached(u64),
}

/// The cached entry of a genre, or the error that it is not cached.
pub fn cached_genre(id: u64, cached: Option<String>) -> (r: Result<String, GenreError>)
    ensures
        match cached {
            Some(v) => r matches Ok(w) && w@ == v@,
            None => r matches Err(GenreError::NotCached(i)) && i == id,
        },
{
    match cached {
        Some(v) => Ok(v),
        None => Err(GenreError::NotCached(id)),
    }
}

/// The fields of an IGDB game that the metadata is made of.
pub struct ApiGameSummary {
    pub name: String,
    pub summary: Option<String>,
    pub storyline: Option<String>,
    pub genres: Vec<u64>,
}

/// The names of the genres that were found, in order.
pub open spec fn found_names(lookups: Seq<Option<String>>) -> Seq<Seq<char>>
    decreases lookups.len(),
{
    if lookups.len() == 0 {
        Seq::empty()
    } else {
        match lookups.last() {
            Some(n) => found_names(lookups.drop_last()).push(n@),
            None => found_names(lookups.drop_last()),
        }
    }
}

/// Whether a genre lookup succeeded.
pub open spec fn looked_up() -> spec_fn(Option<String>) -> bool {
    |o: Option<String>| o is Some
}

/// The characters of a successful lookup's name.
pub open spec fn name_of() -> spec_fn(Option<String>) -> Seq<char> {
    |o: Option<String>| o->0@
}

/// Every genre whose lookup succeeded is kept, in order, and only those: the
/// names are the successful lookups, so there are as many names as
/// successful lookups; where every lookup succeeded, every name is kept.
pub proof fn law_found_names_keeps_successes(lookups: Seq<Option<String>>)
    ensures
        found_names(lookups) == lookups.filter(looked_up()).map_values(name_of()),
        found_names(lookups).len() == lookups.filter(looked_up()).len(),
        (forall|i: int| 0 <= i < lookups.len() ==> #[trigger] lookups[i] is Some)
            ==> found_names(lookups) == lookups.map_values(name_of()),
    decreases lookups.len(),
{
    broadcast use Seq::lemma_filter_push;
    if lookups.len() == 0 {
        reveal(Seq::filter);
        assert(found_names(lookups) =~= lookups.map_values(name_of()));
        assert(lookups.filter(looked_up()).map_values(name_of()) =~= Seq::<Seq<char>>::empty());
    } else {
        let rest = lookups.drop_last();
        law_found_names_keeps_successes(rest);
        assert(lookups =~= rest.push(lookups.last()));
        assert(rest.push(lookups.last()).filter(looked_up()) == (if looked_up()(lookups.last()) {
            rest.filter(looked_up()).push(lookups.last())
        } else {
            rest.filter(looked_up())
        }));
        if lookups.last() is Some {
            assert(rest.filter(looked_up()).push(lookups.last()).map_values(name_of())
                =~= rest.filter(looked_up()).map_values(name_of()).push(lookups.last()->0@));
        }
        if forall|i: int| 0 <= i < lookups.len() ==> #[trigger] lookups[i] is Some {
            assert forall|i: int| 0 <= i < rest.len() implies #[trigger] rest[i] is Some by {
                assert(rest[i] == lookups[i]);
            }
            assert(lookups[lookups.len() - 1] is Some);
            assert(lookups.map_values(name_of()) =~= rest.map_values(name_of()).push(lookups.last()->0@));
        }
    }
}

/// The metadata of an IGDB game: its name, summary and storyline, and the
/// names of those of its genres that could be looked up, in order; a genre
/// whose lookup failed is left out.
pub fn metadata_of(game: ApiGameSummary, genre_names: Vec<Option<String>>) -> (m: GameMetadata)
    ensures
        m@ == (GameMetadataView {
            title: game.name@,
            summary: opt_view(game.summary),
            storyline: opt_view(game.storyline),
            genres: found_names(genre_names@),
        }),
        m.genres@.map_values(|s: String| s@) == genre_names@.filter(looked_up()).map_values(name_of()),
        m.genres@.len() == genre_names@.filter(looked_up()).len(),
{
    proof {
        law_found_names_keeps_successes(genre_names@);
    }
    let mut genres: Vec<String> = Vec::new();
    let mut i: usize = 0;
    while i < genre_names.len()
        invariant
            i <= genre_names@.len(),
            genres@.map_values(|s: String| s@) == found_names(genre_names@.take(i as int)),
        decreases genre_names@.len() - i,
    {
        assert(genre_names@.take(i + 1).drop_last() =~= genre_names@.take(i as int));
        match &genre_names[i] {
            Some(n) => {
                let ghost before = genres@;
                genres.push(n.clone());
                assert(genres@.map_values(|s: String| s@) =~= before.map_values(|s: String| s@).push(n@));
            },
            None => {},
        }
        i = i + 1;
    }
    assert(genre_names@.take(genre_names@.len() as int) =~= genre_names@);
    GameMetadata { title: game.name, summary: game.summary, storyline: game.storyline, genres }
}

} // verus!
