//! The taste of one kind of customer.

use vstd::prelude::*;

verus! {

/// The cup that a customer would like best: the amounts of coffee, milk and
/// sugar in it, in thousandths of a gram or millilitre.
#[derive(Clone, Copy, Debug, PartialEq, Eq, Structural)]
pub struct CustomerVariant {
    pub coffee_pref: i64,
    pub milk_pref: i64,
    pub sugar_pref: i64,
}

impl CustomerVariant {
    /// The common taste: 7 g of coffee, 120 mL of milk, 10 g of sugar.
    pub fn new() -> (variant: Self)
        ensures
            variant == (CustomerVariant {
                coffee_pref: 7_000,
                milk_pref: 120_000,
                sugar_pref: 10_000,
            }),
    {
        CustomerVariant { coffee_pref: 7_000, milk_pref: 120_000, sugar_pref: 10_000 }
    }
}

} // verus!
