//! Helpers that stand apart from the game's rules.

pub mod rng;
