//! Settings model and logic of a terminal configuration editor for the rush shell.
use vstd::prelude::*;

pub mod app;
pub mod behaviour;
pub mod json;
pub mod laws;
pub mod model;
pub mod render;
pub mod text;
pub mod theme;
pub mod ui;

verus! {
} // verus!
