//! Custom categories: one per genre, listing the launcher app names of the
//! games that have that genre.

use vstd::prelude::*;

use crate::service::{Game, StoreInfo, StoreInfoView};
use crate::text::push_str;

verus! {

/// One custom category: a genre and the app names filed under it, in order.
#[derive(Debug)]
pub struct Category {
    pub genre: String,
    pub app_names: Vec<String>,
}

pub open spec fn legendary_suffix() -> Seq<char> {
    seq!['_', 'l', 'e', 'g', 'e', 'n', 'd', 'a', 'r', 'y']
}

pub open spec fn gog_suffix() -> Seq<char> {
    seq!['_', 'g', 'o', 'g']
}

/// The name Heroic gives a game in its categories: the store id followed by
/// `_legendary` for Epic games and `_gog` for GOG games.
pub open spec fn app_name_of(info: StoreInfoView) -> Seq<char> {
    match info {
        StoreInfoView::Epic { id } => id + legendary_suffix(),
        StoreInfoView::GOG { id } => id + gog_suffix(),
    }
}

/// The (genre, app name) pairs a game contributes, one per entry of its genres.
pub open spec fn game_pairs(g: Game) -> Seq<(Seq<char>, Seq<char>)> {
    g.genres@.map_values(|s: String| (s@, app_name_of(g.store_info@)))
}

/// The pairs of the first `n` games, game after game.
pub open spec fn pairs_upto(games: Seq<Game>, n: nat) -> Seq<(Seq<char>, Seq<char>)>
    decreases n,
{
    if n == 0 {
        seq![]
    } else {
        pairs_upto(games, (n - 1) as nat) + game_pairs(games[n - 1])
    }
}

/// All (genre, app name) pairs of a list of games, in order.
pub open spec fn category_pairs(games: Seq<Game>) -> Seq<(Seq<char>, Seq<char>)> {
    pairs_upto(games, games.len())
}

/// The app names filed under a genre, in the order the pairs list them.
pub open spec fn members(pairs: Seq<(Seq<char>, Seq<char>)>, genre: Seq<char>) -> Seq<Seq<char>>
    decreases pairs.len(),
{
    if pairs.len() == 0 {
        seq![]
    } else if pairs.last().0 == genre {
        members(pairs.drop_last(), genre).push(pairs.last().1)
    } else {
        members(pairs.drop_last(), genre)
    }
}

/// Whether some pair names the genre.
pub open spec fn has_genre(pairs: Seq<(Seq<char>, Seq<char>)>, genre: Seq<char>) -> bool {
    exists|i: int| 0 <= i < pairs.len() && #[trigger] pairs[i].0 == genre
}

/// The categories as a map from genre to app names.
pub open spec fn expected_categories(games: Seq<Game>) -> Map<Seq<char>, Seq<Seq<char>>> {
    Map::new(
        |genre: Seq<char>| has_genre(category_pairs(games), genre),
        |genre: Seq<char>| members(category_pairs(games), genre),
    )
}

pub open spec fn names_view(v: Seq<String>) -> Seq<Seq<char>> {
    v.map_values(|s: String| s@)
}

/// No two categories share a genre.
pub open spec fn distinct_genres(cats: Seq<Category>) -> bool {
    forall|i: int, j: int|
        0 <= i < cats.len() && 0 <= j < cats.len() && i != j ==> #[trigger] cats[i].genre@ != #[trigger] cats[j].genre@
}

/// A list of categories holds exactly the genres of the pairs, each once, each
/// with the app names filed under it.
pub open spec fn represents(cats: Seq<Category>, pairs: Seq<(Seq<char>, Seq<char>)>) -> bool {
    &&& distinct_genres(cats)
    &&& forall|i: int| 0 <= i < cats.len() ==> names_view(#[trigger] cats[i].app_names@) == members(pairs, cats[i].genre@)
    &&& forall|genre: Seq<char>| has_genre(pairs, genre) <==> exists|i: int| 0 <= i < cats.len() && #[trigger] cats[i].genre@ == genre
}

/// The map of genre to app names that a list of categories holds.
pub open spec fn categories_map(cats: Seq<Category>) -> Map<Seq<char>, Seq<Seq<char>>> {
    Map::new(
        |genre: Seq<char>| exists|i: int| 0 <= i < cats.len() && #[trigger] cats[i].genre@ == genre,
        |genre: Seq<char>| names_view(cats[choose|i: int| 0 <= i < cats.len() && #[trigger] cats[i].genre@ == genre].app_names@),
    )
}

proof fn lemma_members_push(pairs: Seq<(Seq<char>, Seq<char>)>, p: (Seq<char>, Seq<char>), genre: Seq<char>)
    ensures
        members(pairs.push(p), genre) == if p.0 == genre { members(pairs, genre).push(p.1) } else { members(pairs, genre) },
{
    assert(pairs.push(p).drop_last() =~= pairs);
}

proof fn lemma_has_genre_push(pairs: Seq<(Seq<char>, Seq<char>)>, p: (Seq<char>, Seq<char>), genre: Seq<char>)
    ensures
        has_genre(pairs.push(p), genre) == (has_genre(pairs, genre) || p.0 == genre),
{
    let q = pairs.push(p);
    if has_genre(pairs, genre) {
        let i = choose|i: int| 0 <= i < pairs.len() && #[trigger] pairs[i].0 == genre;
        assert(q[i].0 == genre);
    }
    if p.0 == genre {
        assert(q[pairs.len() as int].0 == genre);
    }
    if has_genre(q, genre) {
        let i = choose|i: int| 0 <= i < q.len() && #[trigger] q[i].0 == genre;
        if i < pairs.len() {
            assert(pairs[i].0 == genre);
        }
    }
}

/// A represented list of categories is the map it stands for.
pub proof fn lemma_represents_map(cats: Seq<Category>, pairs: Seq<(Seq<char>, Seq<char>)>)
    requires
        represents(cats, pairs),
    ensures
        categories_map(cats) == Map::new(
            |genre: Seq<char>| has_genre(pairs, genre),
            |genre: Seq<char>| members(pairs, genre),
        ),
{
    let expected = Map::new(
        |genre: Seq<char>| has_genre(pairs, genre),
        |genre: Seq<char>| members(pairs, genre),
    );
    assert forall|genre: Seq<char>| #[trigger] categories_map(cats).contains_key(genre) implies categories_map(cats)[genre] == expected[genre] by {
        let i = choose|i: int| 0 <= i < cats.len() && #[trigger] cats[i].genre@ == genre;
        assert(names_view(cats[i].app_names@) == members(pairs, cats[i].genre@));
    }
    assert(categories_map(cats) =~= expected);
}

proof fn lemma_pair_listed(games: Seq<Game>, n: nat, i: int, k: int)
    requires
        0 <= i < n <= games.len(),
        0 <= k < games[i].genres@.len(),
    ensures
        exists|j: int| 0 <= j < pairs_upto(games, n).len()
            && #[trigger] pairs_upto(games, n)[j] == (games[i].genres@[k]@, app_name_of(games[i].store_info@)),
    decreases n,
{
    let prefix = pairs_upto(games, (n - 1) as nat);
    if i == n - 1 {
        let j = prefix.len() + k;
        assert(pairs_upto(games, n)[j] == game_pairs(games[i])[k]);
    } else {
        lemma_pair_listed(games, (n - 1) as nat, i, k);
        let j = choose|j: int| 0 <= j < prefix.len()
            && #[trigger] prefix[j] == (games[i].genres@[k]@, app_name_of(games[i].store_info@));
        assert(pairs_upto(games, n)[j] == prefix[j]);
    }
}

proof fn lemma_pair_filed(pairs: Seq<(Seq<char>, Seq<char>)>, j: int)
    requires
        0 <= j < pairs.len(),
    ensures
        has_genre(pairs, pairs[j].0),
        members(pairs, pairs[j].0).contains(pairs[j].1),
    decreases pairs.len(),
{
    let g = pairs[j].0;
    let last = pairs.len() - 1;
    if j == last {
        assert(members(pairs, g) == members(pairs.drop_last(), g).push(pairs[j].1));
        assert(members(pairs, g)[members(pairs, g).len() - 1] == pairs[j].1);
    } else {
        lemma_pair_filed(pairs.drop_last(), j);
        assert(pairs.drop_last()[j] == pairs[j]);
        let before = members(pairs.drop_last(), g);
        let idx = choose|idx: int| 0 <= idx < before.len() && before[idx] == pairs[j].1;
        if pairs[last].0 == g {
            assert(members(pairs, g)[idx] == pairs[j].1);
        } else {
            assert(members(pairs, g)[idx] == pairs[j].1);
        }
    }
}

/// Every game is filed under each of its genres: the custom categories have a
/// category for every genre a game lists, and it holds the game's app name.
pub proof fn law_every_game_filed(games: Seq<Game>, i: int, k: int)
    requires
        0 <= i < games.len(),
        0 <= k < games[i].genres@.len(),
    ensures
        expected_categories(games).contains_key(games[i].genres@[k]@),
        expected_categories(games)[games[i].genres@[k]@].contains(app_name_of(games[i].store_info@)),
{
    let pairs = category_pairs(games);
    lemma_pair_listed(games, games.len(), i, k);
    let j = choose|j: int| 0 <= j < pairs.len()
        && #[trigger] pairs[j] == (games[i].genres@[k]@, app_name_of(games[i].store_info@));
    lemma_pair_filed(pairs, j);
}

/// Only listed genres get a category, and a category only holds the app names
/// of games that list its genre.
pub proof fn law_only_listed_games_filed(games: Seq<Game>, genre: Seq<char>, name: Seq<char>)
    requires
        expected_categories(games).contains_key(genre),
        expected_categories(games)[genre].contains(name),
    ensures
        exists|j: int| 0 <= j < category_pairs(games).len() && #[trigger] category_pairs(games)[j] == (genre, name),
{
    lemma_member_listed(category_pairs(games), genre, name);
}

proof fn lemma_member_listed(pairs: Seq<(Seq<char>, Seq<char>)>, genre: Seq<char>, name: Seq<char>)
    requires
        members(pairs, genre).contains(name),
    ensures
        exists|j: int| 0 <= j < pairs.len() && #[trigger] pairs[j] == (genre, name),
    decreases pairs.len(),
{
    if pairs.len() == 0 {
    } else {
        let before = members(pairs.drop_last(), genre);
        let last = pairs.len() - 1;
        if pairs[last] == (genre, name) {
        } else {
            assert(before.contains(name)) by {
                let idx = choose|idx: int| 0 <= idx < members(pairs, genre).len() && members(pairs, genre)[idx] == name;
                if pairs[last].0 == genre {
                    assert(idx < before.len());
                    assert(before[idx] == name);
                } else {
                    assert(before[idx] == name);
                }
            }
            lemma_member_listed(pairs.drop_last(), genre, name);
            let j = choose|j: int| 0 <= j < pairs.drop_last().len() && #[trigger] pairs.drop_last()[j] == (genre, name);
            assert(pairs[j] == (genre, name));
        }
    }
}

/// The launcher app name of a game: `<id>_legendary` for Epic, `<id>_gog` for GOG.
pub fn app_name(info: &StoreInfo) -> (name: String)
    ensures
        name@ == app_name_of(info@),
{
    match info {
        StoreInfo::Epic { id } => {
            let mut name = id.clone();
            push_str(&mut name, "_legendary");
            proof { reveal_strlit("_legendary"); }
            name
        },
        StoreInfo::GOG { id } => {
            let mut name = id.clone();
            push_str(&mut name, "_gog");
            proof { reveal_strlit("_gog"); }
            name
        },
    }
}

/// Files `app` under `genre`, adding the category if it is new.
fn file_under(cats: &mut Vec<Category>, genre: &String, app: &String, Ghost(pairs): Ghost<Seq<(Seq<char>, Seq<char>)>>)
    requires
        represents(old(cats)@, pairs),
    ensures
        represents(final(cats)@, pairs.push((genre@, app@))),
{
    let ghost p = (genre@, app@);
    let ghost q = pairs.push(p);
    proof {
        assert forall|g: Seq<char>| #[trigger] members(q, g) == (if p.0 == g { members(pairs, g).push(p.1) } else { members(pairs, g) }) by {
            lemma_members_push(pairs, p, g);
        }
        assert forall|g: Seq<char>| #[trigger] has_genre(q, g) == (has_genre(pairs, g) || p.0 == g) by {
            lemma_has_genre_push(pairs, p, g);
        }
    }
    let mut idx: usize = 0;
    while idx < cats.len()
        invariant
            idx <= cats@.len(),
            forall|j: int| 0 <= j < idx ==> #[trigger] cats@[j].genre@ != genre@,
        ensures
            idx <= cats@.len(),
            forall|j: int| 0 <= j < idx ==> #[trigger] cats@[j].genre@ != genre@,
            idx < cats@.len() ==> cats@[idx as int].genre@ == genre@,
        decreases cats@.len() - idx,
    {
        if cats[idx].genre == *genre {
            break;
        }
        idx = idx + 1;
    }
    if idx < cats.len() {
        let ghost before = cats@;
        let mut cat = cats.remove(idx);
        let ghost old_names = cat.app_names@;
        assert(names_view(old_names) == members(pairs, genre@));
        cat.app_names.push(app.clone());
        assert(names_view(cat.app_names@) =~= names_view(old_names).push(app@));
        cats.insert(idx, cat);
        assert forall|i: int| 0 <= i < cats@.len() implies names_view(#[trigger] cats@[i].app_names@) == members(q, cats@[i].genre@) by {
            if i != idx {
                assert(cats@[i] == before[i]);
                assert(before[i].genre@ != before[idx as int].genre@);
            }
        }
        assert forall|g: Seq<char>| has_genre(q, g) <==> exists|i: int| 0 <= i < cats@.len() && #[trigger] cats@[i].genre@ == g by {
            if has_genre(q, g) {
                if has_genre(pairs, g) {
                    let i = choose|i: int| 0 <= i < before.len() && #[trigger] before[i].genre@ == g;
                    assert(cats@[i].genre@ == g);
                } else {
                    assert(cats@[idx as int].genre@ == g);
                }
            }
            if exists|i: int| 0 <= i < cats@.len() && #[trigger] cats@[i].genre@ == g {
                let i = choose|i: int| 0 <= i < cats@.len() && #[trigger] cats@[i].genre@ == g;
                assert(before[i].genre@ == g);
            }
        }
        assert(distinct_genres(cats@)) by {
            assert forall|i: int, j: int| 0 <= i < cats@.len() && 0 <= j < cats@.len() && i != j implies #[trigger] cats@[i].genre@ != #[trigger] cats@[j].genre@ by {
                assert(cats@[i].genre@ == before[i].genre@);
                assert(cats@[j].genre@ == before[j].genre@);
            }
        }
    } else {
        let ghost before = cats@;
        let mut names: Vec<String> = Vec::new();
        names.push(app.clone());
        assert(names_view(names@) =~= seq![app@]);
        proof {
            assert(!has_genre(pairs, genre@)) by {
                if has_genre(pairs, genre@) {
                    let i = choose|i: int| 0 <= i < before.len() && #[trigger] before[i].genre@ == genre@;
                    assert(false);
                }
            }
            assert(members(pairs, genre@) =~= Seq::<Seq<char>>::empty()) by {
                lemma_no_genre_no_members(pairs, genre@);
            }
        }
        cats.push(Category { genre: genre.clone(), app_names: names });
        assert forall|i: int| 0 <= i < cats@.len() implies names_view(#[trigger] cats@[i].app_names@) == members(q, cats@[i].genre@) by {
            if i < before.len() {
                assert(cats@[i] == before[i]);
                assert(before[i].genre@ != genre@);
            } else {
                assert(members(q, genre@) =~= seq![app@]);
                assert(cats@[i].genre@ == genre@);
                assert(names_view(cats@[i].app_names@) == seq![app@]);
            }
        }
        assert forall|g: Seq<char>| has_genre(q, g) <==> exists|i: int| 0 <= i < cats@.len() && #[trigger] cats@[i].genre@ == g by {
            if has_genre(q, g) {
                if has_genre(pairs, g) {
                    let i = choose|i: int| 0 <= i < before.len() && #[trigger] before[i].genre@ == g;
                    assert(cats@[i].genre@ == g);
                } else {
                    assert(cats@[before.len() as int].genre@ == g);
                }
            }
            if exists|i: int| 0 <= i < cats@.len() && #[trigger] cats@[i].genre@ == g {
                let i = choose|i: int| 0 <= i < cats@.len() && #[trigger] cats@[i].genre@ == g;
                if i < before.len() {
                    assert(before[i].genre@ == g);
                }
            }
        }
    }
}

proof fn lemma_no_genre_no_members(pairs: Seq<(Seq<char>, Seq<char>)>, genre: Seq<char>)
    requires
        !has_genre(pairs, genre),
    ensures
        members(pairs, genre) == Seq::<Seq<char>>::empty(),
    decreases pairs.len(),
{
    if pairs.len() > 0 {
        assert(pairs.drop_last().len() < pairs.len());
        assert(!has_genre(pairs.drop_last(), genre)) by {
            if has_genre(pairs.drop_last(), genre) {
                let i = choose|i: int| 0 <= i < pairs.drop_last().len() && #[trigger] pairs.drop_last()[i].0 == genre;
                assert(pairs[i].0 == genre);
            }
        }
        assert(pairs[pairs.len() - 1].0 != genre);
        lemma_no_genre_no_members(pairs.drop_last(), genre);
    }
}

/// Builds the custom categories of a list of games: for every genre that some
/// game lists, the app names of the games that list it, in game order, once
/// per listing. Every genre appears once.
pub fn custom_categories(games: &Vec<Game>) -> (cats: Vec<Category>)
    ensures
        distinct_genres(cats@),
        categories_map(cats@) == expected_categories(games@),
{
    let mut cats: Vec<Category> = Vec::new();
    let mut gi: usize = 0;
    assert(represents(cats@, pairs_upto(games@, 0)));
    while gi < games.len()
        invariant
            gi <= games@.len(),
            represents(cats@, pairs_upto(games@, gi as nat)),
        decreases games@.len() - gi,
    {
        let game = &games[gi];
        let app = app_name(&game.store_info);
        let ghost base = pairs_upto(games@, gi as nat);
        let mut j: usize = 0;
        assert(game_pairs(games@[gi as int]).take(0) =~= Seq::<(Seq<char>, Seq<char>)>::empty());
        assert(base + game_pairs(games@[gi as int]).take(0) =~= base);
        while j < game.genres.len()
            invariant
                j <= game.genres@.len(),
                game == games@[gi as int],
                app@ == app_name_of(game.store_info@),
                represents(cats@, base + game_pairs(games@[gi as int]).take(j as int)),
            decreases game.genres@.len() - j,
        {
            let ghost before = base + game_pairs(games@[gi as int]).take(j as int);
            file_under(&mut cats, &game.genres[j], &app, Ghost(before));
            assert(base + game_pairs(games@[gi as int]).take(j + 1) =~= before.push((game.genres@[j as int]@, app@)));
            j = j + 1;
        }
        assert(game_pairs(games@[gi as int]).take(j as int) =~= game_pairs(games@[gi as int]));
        assert(pairs_upto(games@, (gi + 1) as nat) == base + game_pairs(games@[gi as int]));
        gi = gi + 1;
    }
    proof {
        lemma_represents_map(cats@, category_pairs(games@));
        assert(categories_map(cats@) =~= expected_categories(games@));
    }
    cats
}

} // verus!
