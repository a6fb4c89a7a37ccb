//! The service layer: the games a launcher owns, the metadata found for them,
//! and the decisions that turn one into the other.

use vstd::prelude::*;

pub mod search;
pub mod service;
pub mod progress;

use crate::text::push_str;

verus! {

/// A store that the launcher buys games from.
#[derive(Debug, Clone, Copy, PartialEq, Eq, Structural)]
pub enum StoreName {
    Epic,
    GOG,
}

/// Where a game comes from, with the store's own id for it.
#[derive(Debug, Clone)]
pub enum StoreInfo {
    Epic { id: String },
    GOG { id: String },
}

/// A game with its metadata, as the library keeps it.
#[derive(Debug, Clone)]
pub struct Game {
    pub title: String,
    pub summary: Option<String>,
    pub storyline: Option<String>,
    pub genres: Vec<String>,
    pub store_info: StoreInfo,
}

/// What the metadata service knows of a game.
#[derive(Debug, Clone)]
pub struct GameMetadata {
    pub title: String,
    pub summary: Option<String>,
    pub storyline: Option<String>,
    pub genres: Vec<String>,
}

/// A game as the launcher lists it.
#[derive(Debug, Clone)]
pub struct LauncherGame {
    pub title: String,
    pub app_name: String,
    pub store: StoreName,
}

pub enum StoreInfoView {
    Epic { id: Seq<char> },
    GOG { id: Seq<char> },
}

pub struct GameView {
    pub title: Seq<char>,
    pub summary: Option<Seq<char>>,
    pub storyline: Option<Seq<char>>,
    pub genres: Seq<Seq<char>>,
    pub store_info: StoreInfoView,
}

pub struct GameMetadataView {
    pub title: Seq<char>,
    pub summary: Option<Seq<char>>,
    pub storyline: Option<Seq<char>>,
    pub genres: Seq<Seq<char>>,
}

pub struct LauncherGameView {
    pub title: Seq<char>,
    pub app_name: Seq<char>,
    pub store: StoreName,
}

pub open spec fn opt_view(o: Option<String>) -> Option<Seq<char>> {
    match o {
        Some(s) => Some(s@),
        None => None,
    }
}

pub open spec fn strings_view(v: Seq<String>) -> Seq<Seq<char>> {
    v.map_values(|s: String| s@)
}

impl View for StoreInfo {
    type V = StoreInfoView;

    open spec fn view(&self) -> StoreInfoView {
        match self {
            StoreInfo::Epic { id } => StoreInfoView::Epic { id: id@ },
            StoreInfo::GOG { id } => StoreInfoView::GOG { id: id@ },
        }
    }
}

impl View for Game {
    type V = GameView;

    open spec fn view(&self) -> GameView {
        GameView {
            title: self.title@,
            summary: opt_view(self.summary),
            storyline: opt_view(self.storyline),
            genres: strings_view(self.genres@),
            store_info: self.store_info@,
        }
    }
}

impl View for GameMetadata {
    type V = GameMetadataView;

    open spec fn view(&self) -> GameMetadataView {
        GameMetadataView {
            title: self.title@,
            summary: opt_view(self.summary),
            storyline: opt_view(self.storyline),
            genres: strings_view(self.genres@),
        }
    }
}

impl View for LauncherGame {
    type V = LauncherGameView;

    open spec fn view(&self) -> LauncherGameView {
        LauncherGameView { title: self.title@, app_name: self.app_name@, store: self.store }
    }
}

/// The lower-case label of a store.
pub open spec fn store_label(store: StoreName) -> Seq<char> {
    match store {
        StoreName::Epic => seq!['e', 'p', 'i', 'c'],
        StoreName::GOG => seq!['g', 'o', 'g'],
    }
}

impl From<StoreName> for String {
    fn from(store_name: StoreName) -> (s: String)
        ensures
            s@ == store_label(store_name),
    {
        let mut s = String::new();
        match store_name {
            StoreName::Epic => {
                push_str(&mut s, "epic");
                proof { reveal_strlit("epic"); }
            },
            StoreName::GOG => {
                push_str(&mut s, "gog");
                proof { reveal_strlit("gog"); }
            },
        }
        s
    }
}

impl vstd::std_specs::convert::FromSpecImpl<StoreName> for String {
    open spec fn obeys_from_spec() -> bool {
        false
    }

    open spec fn from_spec(v: StoreName) -> String {
        vstd::pervasive::arbitrary()
    }
}

} // verus!
