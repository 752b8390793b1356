//! A character-grid drawing engine: the grid with change tracking, the luma
//! ramp, the drawing tools and the mode dispatcher, with verified contracts.

pub mod canvas;
pub mod color;
pub mod event;
pub mod luma;
pub mod modes;
pub mod state;
pub mod ui;
