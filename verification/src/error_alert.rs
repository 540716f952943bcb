//! What the player is told when an action is refused.

use vstd::prelude::*;
use vstd::string::StringExecFns;

verus! {

/// A reason for which an action of the player is refused.
#[derive(Clone, Copy, Debug, PartialEq, Eq, Structural)]
pub enum Alert {
    /// The day cannot start with nothing in stock.
    StockEmpty,
    /// The day cannot start without a price above zero.
    NoPrice,
    /// The purchase costs more than the shop has.
    NotEnoughMoney,
}

impl Alert {
    /// The sentence that the player reads.
    pub open spec fn text(self) -> Seq<char> {
        match self {
            Alert::StockEmpty => "Stock are empty please make coffee first"@,
            Alert::NoPrice => "Put a price on your coffee"@,
            Alert::NotEnoughMoney => "Not enough money"@,
        }
    }

    /// The sentence that the player reads.
    pub fn message(&self) -> (message: String)
        ensures
            message@ == self.text(),
    {
        match self {
            Alert::StockEmpty => String::from_str("Stock are empty please make coffee first"),
            Alert::NoPrice => String::from_str("Put a price on your coffee"),
            Alert::NotEnoughMoney => String::from_str("Not enough money"),
        }
    }
}

/// The box in which a refusal is shown: its text, and whether it is up.
#[derive(Debug)]
pub struct ErrorAlert {
    pub message: String,
    pub visible: bool,
}

impl ErrorAlert {
    /// A box that is down and empty.
    pub fn new() -> (alert: Self)
        ensures
            alert.message@ == Seq::<char>::empty(),
            !alert.visible,
    {
        ErrorAlert { message: String::new(), visible: false }
    }

    /// Puts the box up with the given text.
    pub fn show_alert(&mut self, message: String)
        ensures
            final(self).message == message,
            final(self).visible,
    {
        self.message = message;
        self.visible = true;
    }

    /// Takes the box down. Its text stays.
    pub fn close_alert(&mut self)
        ensures
            final(self).message == old(self).message,
            !final(self).visible,
    {
        self.visible = false;
    }
}

} // verus!
