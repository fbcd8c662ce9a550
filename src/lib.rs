//! Session engine for a "Cities/States" party word game: the screen state
//! machine, the turn/category grid, and the opponent answer generator.

pub mod config;
pub mod generator;
pub mod grid;
pub mod menu;
pub mod messages;
pub mod views;
