//! Conway's Game of Life on a fixed-size grid, with the clock and the
//! drag-paint editing that an interactive front end needs.
//!
//! The crate holds no drawing or windowing code. A host feeds it ticks and
//! pointer and key events and reads back the grid and the squares to draw.

pub mod clock;
pub mod config;
pub mod controller;
pub mod engine;
pub mod grid;
pub mod input;
pub mod session;
