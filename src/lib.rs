//! A sparse field of cells seeded at random over a fixed-size terminal grid,
//! and the byte sequences that set up the terminal and draw the cells.

pub mod ansi;
pub mod grid;
pub mod render;
