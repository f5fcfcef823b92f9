//! A grid-based snake game: the simulation core.
//!
//! The snake lives on a small toroidal grid, moves one cell per tick, grows
//! when it eats and loses when it runs into itself. This crate holds that
//! simulation and nothing else: a driver feeds it the clock and the keys, and
//! draws what it exposes.

pub mod config;
pub mod direction;
pub mod grid;
pub mod rng;
pub mod snake;
pub mod state;
