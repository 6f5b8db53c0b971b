//! Safe, verified bridge for writing game-rules engines and graphical
//! frontends against a function-table plugin calling convention.
//!
//! Every instance is a pair of owned slots (the implementer's object and the
//! bridge's auxiliary state); moves and events cross the boundary through a
//! tagged wire representation that is decoded into safe enums.

pub mod error;
pub mod base;
pub mod event;
pub mod game_init;
pub mod game;
pub mod instance;
pub mod text;
pub mod nim;
pub mod sdl_event;
pub mod frontend;
pub mod example_frontend;
