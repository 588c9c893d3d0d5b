//! A keyboard-driven mouse grid: a global chord opens a 10 by 30 grid over
//! the screen, and two keys move the mouse pointer to the center of a cell.
//!
//! The modules hold the decisions and the pixel work of the overlay, each
//! with its contract; the window, the keyboard hook and the text rendering
//! stand around them.
use vstd::prelude::*;

pub mod gradient;
pub mod grid;
pub mod key_index;
pub mod keys;
pub mod laws;
pub mod listener;
pub mod navigation;
pub mod render;

verus! {

} // verus!
