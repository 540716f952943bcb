//! The verdict a customer gives on a cup of coffee.

use vstd::prelude::*;

verus! {

/// What a customer thought of the coffee that was served. Where nothing was
/// served there is no verdict, and the crate writes `Option<CustomerFeedback>`.
#[derive(Clone, Copy, Debug, PartialEq, Eq, Structural)]
pub enum CustomerFeedback {
    Love,
    Like,
    Dislike,
}

} // verus!
