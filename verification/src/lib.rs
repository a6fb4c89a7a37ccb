//! Verified core of a helper that sorts the games of a Heroic Game Launcher
//! library into custom categories, one per genre, using metadata from IGDB.

pub mod text;
pub mod json;
pub mod distance;
pub mod pattern;
pub mod service;
pub mod heroic;
pub mod sqlite;
pub mod igdb;
