//! Turn-based simulation core of a small grid roguelike: a room of cells,
//! actors and items, advanced one turn at a time by player commands, with
//! monster AI, combat resolution and an append-only event log.
#![verifier::loop_isolation(false)]

pub mod content;
pub mod game_model;
pub mod laws;
pub mod model;
pub mod strings;
pub mod types;
pub mod ui_common;
