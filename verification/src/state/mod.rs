//! The records of the game: zombies, armies and battles.

pub mod army;
pub mod battle;
