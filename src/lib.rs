//! A snake game on a toroidal grid: the grid model, the session statistics
//! and the game engine, with their contracts proved by Verus.
pub mod engine;
pub mod grid;
pub mod stats;
mod outside;
