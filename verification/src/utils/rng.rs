//! Random draws, and the decisions that are taken on them.
//!
//! Whole numbers are drawn here, from the engine's generator. A draw that the
//! engine makes as a fraction between 0 and 1 is made by the caller and
//! handed in as a roll: a whole number of millionths.

use godot::classes::RandomNumberGenerator;
use godot::obj::NewGd;
use vstd::prelude::*;

use crate::units::product;

verus! {

/// The threshold, in millionths, below which a roll succeeds for a chance
/// given in thousandths of a percent.
pub open spec fn chance_threshold(percent: i64) -> int {
    percent * 10
}

/// A draw from the engine's `RandomNumberGenerator::randi_range(from, to)`,
/// on a generator made for this one call. The engine documents the result as
/// a whole number between `from` and `to`, both included; that is all that is
/// taken for granted here, and only for `from <= to`. The engine has to be
/// running.
#[verifier::external_body]
pub fn randi(from: i32, to: i32) -> (drawn: i32)
    ensures
        from <= to ==> from <= drawn <= to,
{
    let mut rng = RandomNumberGenerator::new_gd();
    rng.randi_range(from, to)
}

/// One toss of a coin, as a number: 0 or 1.
pub fn coin_toss() -> (side: i32)
    ensures
        side == 0 || side == 1,
{
    randi(0, 1)
}

/// One toss of a coin, as a truth value: whether it showed 1.
pub fn coin_toss_bool() -> bool {
    shows_one(randi(0, 1))
}

/// Whether a roll wins at a chance of `percent`, which is given in
/// thousandths of a percent: it does where the roll lies below the chance.
pub fn check_chance(percent: i64, roll: u32) -> (won: bool)
    ensures
        won == (roll < chance_threshold(percent)),
{
    (roll as i128) < product(percent, 10)
}

/// Whether a toss of the coin, given as the number that was drawn, counts as
/// true: it does where the number is 1, and for no other number.
pub fn shows_one(side: i32) -> (showed: bool)
    ensures
        showed == (side == 1),
{
    side == 1
}

} // verus!
