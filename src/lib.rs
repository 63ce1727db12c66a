//! Core of a jigsaw-puzzle game: the difficulty rule, the in-memory store of
//! puzzles and leaderboard entries, and the command handlers that validate
//! requests and answer with a success-or-error envelope.

pub mod commands;
pub mod daily;
pub mod decimal;
pub mod difficulty;
pub mod leaderboard;
pub mod models;
pub mod platform;
pub mod store;
