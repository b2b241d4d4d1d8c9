//! A verified engine for the classic land-and-grain governing game.
//!
//! The player rules a city-state for up to ten years, buying and selling
//! land, feeding the people, and planting grain, while random events
//! (plague, harvest yield, rats, land prices) perturb the state.  Every
//! rule of the game lives here as a verified function with an exact
//! contract; the interactive front end only reads lines and prints text.

pub mod decisions;
pub mod events;
pub mod laws;
pub mod random;
pub mod score;
pub mod state;

use vstd::prelude::*;

verus! {

/// The lowest land price the market ever quotes, in bushels per acre.
pub const LAND_VALUE_MIN: u64 = 17;

/// The highest land price the market ever quotes, in bushels per acre.
pub const LAND_VALUE_MAX: u64 = 23;

} // verus!
