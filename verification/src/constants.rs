//! Fixed parameters of the game.

use vstd::prelude::*;

verus! {

/// Number of zombie slots in an army.
pub const MAX_ZOMBIES: usize = 10;

/// Number of candidate DNA values in a battle.
pub const MAX_CARDS: usize = 3;

/// Seconds a zombie rests between two fights.
pub const COOLDOWN_SECONDS: i64 = 60;

/// The marker bit of a DNA value. Every DNA value of a living zombie is at
/// least this large, so `0` is free to mean "no zombie".
pub const DNA_MARKER: u64 = 0x1000_0000_0000_0000;

} // verus!
