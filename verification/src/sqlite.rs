//! The rows of the local `games` table, and their conversion to and from games.

use vstd::prelude::*;

use crate::json::{json_of_strings, strings_from_json, strings_of_json, strings_to_json};
use crate::service::{opt_view, store_label, Game, GameView, StoreInfo, StoreInfoView, StoreName};
use crate::text::push_str;

verus! {

/// One row of the `games` table.
pub struct SqliteGame {
    pub id: String,
    pub name: String,
    pub summary: Option<String>,
    pub storyline: Option<String>,
    pub genres: Option<String>,
    pub store_name: String,
    pub store_id: String,
}

pub struct SqliteGameView {
    pub id: Seq<char>,
    pub name: Seq<char>,
    pub summary: Option<Seq<char>>,
    pub storyline: Option<Seq<char>>,
    pub genres: Option<Seq<char>>,
    pub store_name: Seq<char>,
    pub store_id: Seq<char>,
}

impl View for SqliteGame {
    type V = SqliteGameView;

    open spec fn view(&self) -> SqliteGameView {
        SqliteGameView {
            id: self.id@,
            name: self.name@,
            summary: opt_view(self.summary),
            storyline: opt_view(self.storyline),
            genres: opt_view(self.genres),
            store_name: self.store_name@,
            store_id: self.store_id@,
        }
    }
}

/// Why a row is no game.
pub enum RowError {
    /// The row names a store that is neither `epic` nor `gog`.
    UnknownStore(String),
    /// The row's genres are not a JSON list of strings.
    Genres(serde_json::Error),
}

pub open spec fn empty_list_json() -> Seq<char> {
    seq!['[', ']']
}

/// The row a game is stored as: keyed and named by its title, with its genres
/// as a JSON list (`[]` where they cannot be written) and its store split into
/// a name and an id.
pub open spec fn row_of(g: GameView) -> SqliteGameView {
    SqliteGameView {
        id: g.title,
        name: g.title,
        summary: g.summary,
        storyline: g.storyline,
        genres: Some(match json_of_strings(g.genres) {
            Some(t) => t,
            None => empty_list_json(),
        }),
        store_name: match g.store_info {
            StoreInfoView::Epic { .. } => store_label(StoreName::Epic),
            StoreInfoView::GOG { .. } => store_label(StoreName::GOG),
        },
        store_id: match g.store_info {
            StoreInfoView::Epic { id } => id,
            StoreInfoView::GOG { id } => id,
        },
    }
}

/// The store a row names, if it is a known one.
pub open spec fn row_store(r: SqliteGameView) -> Option<StoreInfoView> {
    if r.store_name == store_label(StoreName::Epic) {
        Some(StoreInfoView::Epic { id: r.store_id })
    } else if r.store_name == store_label(StoreName::GOG) {
        Some(StoreInfoView::GOG { id: r.store_id })
    } else {
        None
    }
}

/// The text a row's genres are read from: its genres column, or `[]` where empty.
pub open spec fn row_genres_text(r: SqliteGameView) -> Seq<char> {
    match r.genres {
        Some(t) => t,
        None => empty_list_json(),
    }
}

/// The game a row stands for, where its store is known and its genres read.
pub open spec fn game_of_row(r: SqliteGameView) -> Option<GameView> {
    match (row_store(r), strings_of_json(row_genres_text(r))) {
        (Some(store_info), Some(genres)) => Some(GameView {
            title: r.name,
            summary: r.summary,
            storyline: r.storyline,
            genres,
            store_info,
        }),
        _ => None,
    }
}

fn copy_opt(o: &Option<String>) -> (r: Option<String>)
    ensures
        opt_view(r) == opt_view(*o),
{
    match o {
        Some(s) => Some(s.clone()),
        None => None,
    }
}

fn literal(s: &str) -> (r: String)
    ensures
        r@ == s@,
{
    let mut r = String::new();
    push_str(&mut r, s);
    r
}

impl SqliteGame {
    /// The row a game is stored as.
    pub fn from_game(game: &Game) -> (r: SqliteGame)
        ensures
            r@ == row_of(game@),
    {
        proof {
            reveal_strlit("[]");
            reveal_strlit("epic");
            reveal_strlit("gog");
            assert("[]"@ =~= empty_list_json());
            assert("epic"@ =~= store_label(StoreName::Epic));
            assert("gog"@ =~= store_label(StoreName::GOG));
        }
        let genres = match strings_to_json(&game.genres) {
            Ok(t) => t,
            Err(_) => literal("[]"),
        };
        let (store_name, store_id) = match &game.store_info {
            StoreInfo::Epic { id } => (literal("epic"), id.clone()),
            StoreInfo::GOG { id } => (literal("gog"), id.clone()),
        };
        SqliteGame {
            id: game.title.clone(),
            name: game.title.clone(),
            summary: copy_opt(&game.summary),
            storyline: copy_opt(&game.storyline),
            genres: Some(genres),
            store_name,
            store_id,
        }
    }

    /// The game a row stands for. Fails where the row's store is neither
    /// `epic` nor `gog`, and then where its genres are not a JSON list of
    /// strings (an empty genres column reads as no genres).
    pub fn to_game(&self) -> (r: Result<Game, RowError>)
        ensures
            (r matches Err(RowError::UnknownStore(name))) <==> row_store(self@) is None,
            r matches Err(RowError::UnknownStore(name)) ==> name@ == self@.store_name,
            (r matches Err(RowError::Genres(_))) <==> (row_store(self@) is Some
                && strings_of_json(row_genres_text(self@)) is None),
            r is Ok <==> game_of_row(self@) is Some,
            r matches Ok(g) ==> game_of_row(self@) == Some(g@),
    {
        proof {
            reveal_strlit("[]");
            reveal_strlit("epic");
            reveal_strlit("gog");
            assert("[]"@ =~= empty_list_json());
            assert("epic"@ =~= store_label(StoreName::Epic));
            assert("gog"@ =~= store_label(StoreName::GOG));
        }
        let epic = literal("epic");
        let gog = literal("gog");
        let ghost row = self@;
        let store_info = if self.store_name == epic {
            StoreInfo::Epic { id: self.store_id.clone() }
        } else if self.store_name == gog {
            StoreInfo::GOG { id: self.store_id.clone() }
        } else {
            return Err(RowError::UnknownStore(self.store_name.clone()));
        };
        let parsed = match &self.genres {
            Some(t) => strings_from_json(t.as_str()),
            None => strings_from_json("[]"),
        };
        let genres = match parsed {
            Ok(g) => g,
            Err(e) => { return Err(RowError::Genres(e)); },
        };
        Ok(Game {
            title: self.name.clone(),
            summary: copy_opt(&self.summary),
            storyline: copy_opt(&self.storyline),
            genres,
            store_info,
        })
    }

    /// The games of the rows that stand for one, in row order; the other rows
    /// are skipped.
    pub fn games_of_rows(rows: &Vec<SqliteGame>) -> (games: Vec<Game>)
        ensures
            games_view(games@) == row_games(rows_view(rows@)),
            games@.len() == rows_view(rows@).filter(stands_for_game()).len(),
            forall|i: int| 0 <= i < rows@.len() && #[trigger] game_of_row(rows@[i]@) is Some
                ==> games_view(games@).contains(game_of_row(rows@[i]@)->0),
    {
        let mut games: Vec<Game> = Vec::new();
        let mut i: usize = 0;
        while i < rows.len()
            invariant
                i <= rows@.len(),
                games_view(games@) == row_games(rows_view(rows@.take(i as int))),
            decreases rows@.len() - i,
        {
            assert(rows_view(rows@.take(i + 1)).drop_last() =~= rows_view(rows@.take(i as int)));
            let ghost before = games@;
            match rows[i].to_game() {
                Ok(g) => {
                    games.push(g);
                    assert(games_view(games@) =~= games_view(before).push(g@));
                },
                Err(_) => {},
            }
            i = i + 1;
        }
        assert(rows@.take(rows@.len() as int) =~= rows@);
        proof {
            law_rows_read_back(rows_view(rows@));
            assert forall|i: int| 0 <= i < rows@.len() && #[trigger] game_of_row(rows@[i]@) is Some
                implies games_view(games@).contains(game_of_row(rows@[i]@)->0) by {
                assert(rows_view(rows@)[i] == rows@[i]@);
            }
        }
        games
    }
}

pub open spec fn rows_view(rows: Seq<SqliteGame>) -> Seq<SqliteGameView> {
    rows.map_values(|r: SqliteGame| r@)
}

pub open spec fn games_view(games: Seq<Game>) -> Seq<GameView> {
    games.map_values(|g: Game| g@)
}

/// The games that a list of rows stands for, in order, leaving out the rows
/// that stand for none.
pub open spec fn row_games(rows: Seq<SqliteGameView>) -> Seq<GameView>
    decreases rows.len(),
{
    if rows.len() == 0 {
        Seq::empty()
    } else {
        match game_of_row(rows.last()) {
            Some(g) => row_games(rows.drop_last()).push(g),
            None => row_games(rows.drop_last()),
        }
    }
}

/// The `LIKE` pattern that finds a title anywhere in a name: `%title%`.
pub fn like_pattern(title: &str) -> (p: String)
    ensures
        p@ == seq!['%'] + title@ + seq!['%'],
{
    let mut p = String::new();
    push_str(&mut p, "%");
    push_str(&mut p, title);
    push_str(&mut p, "%");
    proof {
        reveal_strlit("%");
        assert(p@ =~= seq!['%'] + title@ + seq!['%']);
    }
    p
}

/// Whether a row stands for a game.
pub open spec fn stands_for_game() -> spec_fn(SqliteGameView) -> bool {
    |r: SqliteGameView| game_of_row(r) is Some
}

/// The game a row that stands for one stands for.
pub open spec fn its_game() -> spec_fn(SqliteGameView) -> GameView {
    |r: SqliteGameView| game_of_row(r)->0
}

/// Reading rows back keeps every row that stands for a game and only those,
/// in row order: each such row gives its game, and there are as many games
/// as such rows.
pub proof fn law_rows_read_back(rows: Seq<SqliteGameView>)
    ensures
        row_games(rows) == rows.filter(stands_for_game()).map_values(its_game()),
        row_games(rows).len() == rows.filter(stands_for_game()).len(),
        forall|i: int| 0 <= i < rows.len() && #[trigger] game_of_row(rows[i]) is Some
            ==> row_games(rows).contains(game_of_row(rows[i])->0),
    decreases rows.len(),
{
    broadcast use Seq::lemma_filter_push;
    if rows.len() == 0 {
        reveal(Seq::filter);
        assert(rows.filter(stands_for_game()).map_values(its_game()) =~= Seq::<GameView>::empty());
    } else {
        let rest = rows.drop_last();
        law_rows_read_back(rest);
        assert(rows =~= rest.push(rows.last()));
        assert(rest.push(rows.last()).filter(stands_for_game()) == (if stands_for_game()(rows.last()) {
            rest.filter(stands_for_game()).push(rows.last())
        } else {
            rest.filter(stands_for_game())
        }));
        if game_of_row(rows.last()) is Some {
            assert(rest.filter(stands_for_game()).push(rows.last()).map_values(its_game())
                =~= rest.filter(stands_for_game()).map_values(its_game()).push(game_of_row(rows.last())->0));
        }
        assert forall|i: int| 0 <= i < rows.len() && #[trigger] game_of_row(rows[i]) is Some
            implies row_games(rows).contains(game_of_row(rows[i])->0) by {
            if i < rest.len() {
                assert(rest[i] == rows[i]);
                assert(game_of_row(rest[i]) is Some);
                let k = choose|k: int| 0 <= k < row_games(rest).len() && row_games(rest)[k] == game_of_row(rest[i])->0;
                assert(row_games(rows)[k] == row_games(rest)[k]);
            } else {
                assert(rows[i] == rows.last());
                assert(row_games(rows)[row_games(rows).len() - 1] == game_of_row(rows[i])->0);
            }
        }
    }
}

/// A stored game reads back as itself, provided its genres read back from the
/// JSON they were written as.
pub proof fn law_row_round_trip(g: GameView)
    requires
        json_of_strings(g.genres) matches Some(t) && strings_of_json(t) == Some(g.genres),
    ensures
        game_of_row(row_of(g)) == Some(g),
{
    assert(store_label(StoreName::Epic) != store_label(StoreName::GOG)) by {
        assert(store_label(StoreName::Epic).len() != store_label(StoreName::GOG).len());
    }
}

} // verus!
