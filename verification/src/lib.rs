//! Conway's Game of Life on a fixed-size rectangular grid.
//!
//! `grid` holds the cell data model, `engine` computes the next
//! generation under the classic B3/S23 rule with a zero-neighbour
//! border policy, and `render` turns a grid into text lines.

pub mod engine;
pub mod grid;
pub mod render;
mod rng;
