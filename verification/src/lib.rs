//! Scene composition for a tile-based grid puzzle.
//!
//! A level is a grid of cells. Drawing it means laying out, cell by cell, the
//! floor tiles, the shadows that walls cast on them and the objects that stand
//! on them, on a canvas of the level's full size, and then fitting that canvas
//! into the window. This crate computes all of that as plain values; putting
//! the pixels on a display is left to the caller.

pub mod level;
pub mod position;
pub mod rect;
pub mod render;
pub mod scene;
pub mod shadow;
pub mod tile;
