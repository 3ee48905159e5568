//! The state of the terminal interface and the text it shows.

pub mod ansi;
pub mod blocks;
pub mod commands;
pub mod controller;
pub mod help;
pub mod inline;
pub mod layout;
pub mod markdown;
pub mod render;
pub mod state;
pub mod theme;
