//! SmartCity Forge: the rules of a small smart-city builder.
//!
//! The library holds the city grid, the placement rules for utility and
//! OT assets, service coverage, the hourly/daily simulation, the graphics
//! configuration model and the small pieces of UI state whose behaviour is
//! pure decision logic. Everything here is verified with Verus.

pub mod grid;
mod random;
pub mod model;
pub mod text;
pub mod wrap;
pub mod game;
pub mod settings;
pub mod neighborhood;
pub mod ui;
pub mod input;
pub mod hud;
pub mod catalog;
pub mod laws;
