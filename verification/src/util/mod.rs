//! Helpers around the cell grid.

pub mod tui;
