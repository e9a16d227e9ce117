//! Verified core of the rVsrg views: the decisions, texts and layouts that
//! the rendering code draws.
use vstd::prelude::*;

pub mod editor;
pub mod gameplay;
pub mod hud;
pub mod leaderboard;
pub mod menu;
pub mod model;
pub mod playfield;
pub mod result;
pub mod settings;
pub mod song_select;
pub mod text;

verus! {
} // verus!
