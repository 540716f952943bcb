//! The shop in which the player buys ingredients and cups by the pack.

use vstd::prelude::*;

use crate::error_alert::Alert;
use crate::singletons::game_data::{CoffeeComponent, GameDataSingleton};
use crate::units::{product, saturate, saturated, saturating_sum};

verus! {

/// The price of one pack of coffee.
pub const COFFEE_PRICE: i32 = 120;

/// The price of one pack of milk.
pub const MILK_PRICE: i32 = 30;

/// The price of one pack of sugar.
pub const SUGAR_PRICE: i32 = 20;

/// The price of one pack of cups.
pub const CUP_PRICE: i32 = 50;

/// The grams of coffee in one pack.
pub const COFFEE_PACK: i64 = 300;

/// The millilitres of milk in one pack.
pub const MILK_PACK: i64 = 1000;

/// The grams of sugar in one pack.
pub const SUGAR_PACK: i64 = 1000;

/// The cups in one pack.
pub const CUP_PACK: i32 = 50;

/// The shop's form. The three ingredient fields hold the number of packs
/// asked for, in thousandths; the cup field holds a whole number of packs.
/// `money_label` is the total that the form shows.
#[derive(Clone, Copy, Debug, PartialEq, Eq, Structural)]
pub struct ShopTab {
    pub coffee_input: i64,
    pub milk_input: i64,
    pub sugar_input: i64,
    pub cup_input: i32,
    pub money_label: i32,
}

/// The whole packs in a field: what is typed, without its fraction.
pub open spec fn whole_packs(input: i64) -> int {
    if input >= 0 {
        input / 1000
    } else {
        -((-input) / 1000)
    }
}

/// What a field holds once a number of packs below zero is struck out.
pub open spec fn sanitized(input: i64) -> i64 {
    if whole_packs(input) < 0 {
        0
    } else {
        input
    }
}

impl ShopTab {
    /// A form in which nothing is asked for.
    pub open spec fn blank() -> ShopTab {
        ShopTab { coffee_input: 0, milk_input: 0, sugar_input: 0, cup_input: 0, money_label: 0 }
    }

    /// The form with every whole number of packs below zero struck out.
    pub open spec fn clean(self) -> ShopTab {
        ShopTab {
            coffee_input: sanitized(self.coffee_input),
            milk_input: sanitized(self.milk_input),
            sugar_input: sanitized(self.sugar_input),
            cup_input: if self.cup_input < 0 {
                0
            } else {
                self.cup_input
            },
            ..self
        }
    }

    /// The price of the whole packs that the form asks for.
    pub open spec fn total(self) -> int {
        whole_packs(self.coffee_input) * COFFEE_PRICE + whole_packs(self.milk_input) * MILK_PRICE
            + whole_packs(self.sugar_input) * SUGAR_PRICE + self.cup_input * CUP_PRICE
    }

    /// The books once the order on the form is paid and delivered: the
    /// labelled total leaves the money, and every pack asked for, fractions
    /// too, goes into the store room or onto the cup count.
    pub open spec fn delivered(self, game: GameDataSingleton) -> GameDataSingleton {
        GameDataSingleton {
            money: (game.money - self.money_label) as i32,
            inventory: CoffeeComponent {
                coffee: saturated(
                    game.inventory.coffee + saturated(self.coffee_input * COFFEE_PACK),
                ) as i64,
                milk: saturated(game.inventory.milk + saturated(self.milk_input * MILK_PACK)) as i64,
                sugar: saturated(
                    game.inventory.sugar + saturated(self.sugar_input * SUGAR_PACK),
                ) as i64,
            },
            cup: (game.cup + self.cup_input * CUP_PACK) as i32,
            ..game
        }
    }

    /// Whether the form's total can be shown: every field's whole packs and
    /// their price fit the label.
    pub open spec fn can_total(self) -> bool {
        &&& i32::MIN <= whole_packs(self.coffee_input) * COFFEE_PRICE <= i32::MAX
        &&& i32::MIN <= whole_packs(self.milk_input) * MILK_PRICE <= i32::MAX
        &&& i32::MIN <= whole_packs(self.sugar_input) * SUGAR_PRICE <= i32::MAX
        &&& i32::MIN <= self.cup_input * CUP_PRICE <= i32::MAX
        &&& i32::MIN <= self.total() <= i32::MAX
    }

    /// Whether the books can hold what the form's order does to them.
    pub open spec fn can_deliver(self, game: GameDataSingleton) -> bool {
        &&& game.money - self.money_label <= i32::MAX
        &&& i32::MIN <= self.cup_input * CUP_PACK <= i32::MAX
        &&& i32::MIN <= game.cup + self.cup_input * CUP_PACK <= i32::MAX
    }

    /// A form in which nothing is asked for.
    pub fn new() -> (form: Self)
        ensures
            form == Self::blank(),
    {
        ShopTab { coffee_input: 0, milk_input: 0, sugar_input: 0, cup_input: 0, money_label: 0 }
    }

    /// Whether the label can show the total of the form once it is cleaned.
    pub fn fits_label(&self) -> (ok: bool)
        ensures
            ok == self.clean().can_total(),
    {
        let mut clean = *self;
        clean.sanitize_input();
        let coffee: i128 = product(whole_packs_of(clean.coffee_input), COFFEE_PRICE as i64);
        let milk: i128 = product(whole_packs_of(clean.milk_input), MILK_PRICE as i64);
        let sugar: i128 = product(whole_packs_of(clean.sugar_input), SUGAR_PRICE as i64);
        let cup: i128 = product(clean.cup_input as i64, CUP_PRICE as i64);
        if !(in_i32(coffee) && in_i32(milk) && in_i32(sugar) && in_i32(cup)) {
            return false;
        }
        in_i32(coffee + milk + sugar + cup)
    }

    /// Whether the books can hold what buying at the labelled total does to
    /// them. A purchase that the money does not cover does nothing to them.
    pub fn fits_books(&self, game: &GameDataSingleton) -> (ok: bool)
        ensures
            ok == (game.money >= self.money_label ==> self.can_deliver(*game)),
    {
        if game.money < self.money_label {
            return true;
        }
        let left: i64 = game.money as i64 - self.money_label as i64;
        let cups: i128 = product(self.cup_input as i64, CUP_PACK as i64);
        left <= i32::MAX as i64 && in_i32(cups) && in_i32(game.cup as i128 + cups)
    }

    /// Strikes out every whole number of packs below zero.
    pub fn sanitize_input(&mut self)
        ensures
            *final(self) == old(self).clean(),
    {
        let coffee = whole_packs_of(self.coffee_input);
        let milk = whole_packs_of(self.milk_input);
        let sugar = whole_packs_of(self.sugar_input);
        let cup = self.cup_input;

        if coffee < 0 {
            self.coffee_input = 0;
        }
        if milk < 0 {
            self.milk_input = 0;
        }
        if sugar < 0 {
            self.sugar_input = 0;
        }
        if cup < 0 {
            self.cup_input = 0;
        }
    }

    /// A field has changed: the form is cleaned, and its label shows the
    /// price of the whole packs asked for.
    pub fn on_change_buy_amount(&mut self)
        requires
            old(self).clean().can_total(),
        ensures
            *final(self) == (ShopTab {
                money_label: old(self).clean().total() as i32,
                ..old(self).clean()
            }),
    {
        self.sanitize_input();
        let coffee: i32 = whole_packs_of(self.coffee_input) as i32;
        let milk: i32 = whole_packs_of(self.milk_input) as i32;
        let sugar: i32 = whole_packs_of(self.sugar_input) as i32;
        let cup: i32 = self.cup_input;

        let coffee_subtotal = coffee * COFFEE_PRICE;
        let milk_subtotal = milk * MILK_PRICE;
        let sugar_subtotal = sugar * SUGAR_PRICE;
        let cup_subtotal = cup * CUP_PRICE;

        let total = coffee_subtotal + milk_subtotal + sugar_subtotal + cup_subtotal;
        self.money_label = total;
    }

    /// The player buys what the form asks for, at the total that its label
    /// shows. Where the shop has less money than that, nothing changes.
    /// Else the books are charged and stocked up, and the form is wiped.
    pub fn on_buy(&mut self, game: &mut GameDataSingleton) -> (outcome: Result<(), Alert>)
        requires
            old(game).money >= old(self).money_label ==> old(self).can_deliver(*old(game)),
        ensures
            old(game).money < old(self).money_label ==> {
                &&& outcome == Err::<(), Alert>(Alert::NotEnoughMoney)
                &&& *final(self) == *old(self)
                &&& *final(game) == *old(game)
            },
            old(game).money >= old(self).money_label ==> {
                &&& outcome is Ok
                &&& *final(self) == Self::blank()
                &&& *final(game) == old(self).delivered(*old(game))
            },
    {
        let total = self.money_label;
        if game.money < total {
            return Err(Alert::NotEnoughMoney);
        }
        let coffee = amount_in(self.coffee_input, COFFEE_PACK);
        let milk = amount_in(self.milk_input, MILK_PACK);
        let sugar = amount_in(self.sugar_input, SUGAR_PACK);
        let cup = self.cup_input * CUP_PACK;

        game.money = game.money - total;
        game.inventory.coffee = saturating_sum(game.inventory.coffee, coffee);
        game.inventory.milk = saturating_sum(game.inventory.milk, milk);
        game.inventory.sugar = saturating_sum(game.inventory.sugar, sugar);
        game.cup += cup;

        self.coffee_input = 0;
        self.milk_input = 0;
        self.sugar_input = 0;
        self.cup_input = 0;
        self.money_label = 0;
        Ok(())
    }
}

/// The amount in a number of packs, which is given in thousandths.
fn amount_in(packs: i64, pack: i64) -> (amount: i64)
    ensures
        amount == saturated(packs * pack),
{
    saturate(product(packs, pack))
}

/// Whether a wide number fits `i32`.
fn in_i32(x: i128) -> (fits: bool)
    ensures
        fits == (i32::MIN <= x <= i32::MAX),
{
    i32::MIN as i128 <= x && x <= i32::MAX as i128
}

/// The whole packs in a field.
fn whole_packs_of(input: i64) -> (packs: i64)
    ensures
        packs == whole_packs(input),
{
    if input >= 0 {
        input / 1000
    } else {
        let up: i128 = -(input as i128);
        let packs: i128 = up / 1000;
        -(packs as i64)
    }
}

} // verus!
