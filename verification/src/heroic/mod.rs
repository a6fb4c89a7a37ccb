//! The Heroic Game Launcher side: the libraries it keeps per store and the
//! custom categories it shows.

pub mod epic;
pub mod gog;
pub mod categories;
pub mod config;
pub mod launcher;

pub use launcher::Store;
