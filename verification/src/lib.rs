//! Core logic of a desktop shortcut-key reference tool: text normalisation,
//! window placement, settings transitions and the SQLite-backed catalogue of
//! applications and their keyboard shortcuts.

pub mod text;
pub mod db;
pub mod position;
pub mod store;
pub mod settings;
pub mod window;

