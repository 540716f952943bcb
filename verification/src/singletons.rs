//! State that the whole game shares.

pub mod game_data;
