//! Game rules for a zombie army: DNA generation, cooldowns, battle resolution
//! and slot management, with every rule stated as a contract.

pub mod constants;
pub mod dna;
pub mod errors;
pub mod game;
pub mod hex;
pub mod instructions;
pub mod le;
pub mod rng;
pub mod state;
