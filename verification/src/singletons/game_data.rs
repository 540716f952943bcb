//! The shop's books: money, stock, cups, the day, the price of a cup, how well
//! the shop is liked, what is in the store room and what goes into one cup.

use vstd::arithmetic::div_mod::lemma_fundamental_div_mod_converse;
use vstd::prelude::*;

use crate::customer_feedback::CustomerFeedback;
use crate::units::{
    clamp, clamped, from_whole, saturate_i32, saturated, saturated_i32, saturating_difference,
};

verus! {

/// Favorability of a shop that everybody likes, in thousandths.
pub const FAVORABILITY_FULL: i64 = 1000;

/// What a customer who loved the coffee adds to the favorability.
pub const LOVE_NUDGE: i64 = 50;

/// What a customer who liked the coffee adds to the favorability.
pub const LIKE_NUDGE: i64 = 20;

/// What a customer who disliked the coffee adds to the favorability.
pub const DISLIKE_NUDGE: i64 = 40;

/// Amounts of the three ingredients, each in thousandths of a gram (coffee,
/// sugar) or of a millilitre (milk).
#[derive(Clone, Copy, Debug, PartialEq, Eq, Structural)]
pub struct CoffeeComponent {
    pub coffee: i64,
    pub milk: i64,
    pub sugar: i64,
}

impl CoffeeComponent {
    /// The amounts given in whole grams and millilitres.
    pub fn from_whole(coffee: i32, milk: i32, sugar: i32) -> (c: Self)
        ensures
            c.coffee == coffee * 1000,
            c.milk == milk * 1000,
            c.sugar == sugar * 1000,
    {
        CoffeeComponent {
            coffee: from_whole(coffee),
            milk: from_whole(milk),
            sugar: from_whole(sugar),
        }
    }

    /// Whether all three amounts are zero.
    pub fn _is_empty(&self) -> (empty: bool)
        ensures
            empty == (self.coffee == 0 && self.milk == 0 && self.sugar == 0),
    {
        self.coffee == 0 && self.milk == 0 && self.sugar == 0
    }

    /// What is left of `self` once `used` is taken out of it, ingredient by
    /// ingredient.
    pub open spec fn less(self, used: CoffeeComponent) -> CoffeeComponent {
        CoffeeComponent {
            coffee: saturated(self.coffee - used.coffee) as i64,
            milk: saturated(self.milk - used.milk) as i64,
            sugar: saturated(self.sugar - used.sugar) as i64,
        }
    }
}

impl Default for CoffeeComponent {
    fn default() -> (c: Self)
        ensures
            c == (CoffeeComponent { coffee: 0, milk: 0, sugar: 0 }),
    {
        CoffeeComponent { coffee: 0, milk: 0, sugar: 0 }
    }
}

/// The number of whole cups that `have` of one ingredient allows when a cup
/// takes `per_cup` of it: the quotient rounded down.
///
/// A cup that takes none of the ingredient is not limited by it: the limit is
/// then as large as a stock can be where some of the ingredient is owned, as
/// small as a stock can be where it is owed, and absent where there is none.
pub open spec fn ingredient_limit(have: int, per_cup: int) -> Option<int> {
    if per_cup > 0 {
        Some(have / per_cup)
    } else if per_cup < 0 {
        Some((-have) / (-per_cup))
    } else if have > 0 {
        Some(i32::MAX as int)
    } else if have < 0 {
        Some(i32::MIN as int)
    } else {
        None
    }
}

/// The smaller of two limits; an absent limit gives way to the other.
pub open spec fn tighter(a: Option<int>, b: Option<int>) -> Option<int> {
    match (a, b) {
        (Some(x), Some(y)) => Some(if x <= y { x } else { y }),
        (Some(_), None) => a,
        (None, _) => b,
    }
}

/// The stock that `inventory` yields under `recipe`: the tightest of the three
/// ingredients' limits, kept within `i32`, and zero where no ingredient sets a
/// limit.
pub open spec fn possible_cups(inventory: CoffeeComponent, recipe: CoffeeComponent) -> int {
    let coffee = ingredient_limit(inventory.coffee as int, recipe.coffee as int);
    let milk = ingredient_limit(inventory.milk as int, recipe.milk as int);
    let sugar = ingredient_limit(inventory.sugar as int, recipe.sugar as int);
    match tighter(tighter(coffee, milk), sugar) {
        Some(cups) => saturated_i32(cups),
        None => 0,
    }
}

/// `a / b` rounded down, for a positive divisor.
fn floor_quotient(a: i128, b: i128) -> (q: i128)
    requires
        -0x1_0000_0000_0000_0000 <= a <= 0x1_0000_0000_0000_0000,
        0 < b <= 0x1_0000_0000_0000_0000,
    ensures
        q == a / b,
{
    if a >= 0 {
        let n: u128 = a as u128;
        let d: u128 = b as u128;
        let q: u128 = n / d;
        q as i128
    } else {
        let n: u128 = (-a) as u128;
        let d: u128 = b as u128;
        let q: u128 = n / d;
        let r: u128 = n % d;
        if r == 0 {
            proof {
                assert(n == d * q) by (nonlinear_arith)
                    requires
                        d > 0,
                        q == n / d,
                        n % d == 0,
                ;
                assert(a == (-(q as int)) * b + 0) by (nonlinear_arith)
                    requires
                        a == -(n as int),
                        n == d * q,
                        d == b,
                ;
                lemma_fundamental_div_mod_converse(a as int, b as int, -(q as int), 0);
            }
            -(q as i128)
        } else {
            proof {
                assert(n == d * q + r && r < d) by (nonlinear_arith)
                    requires
                        d > 0,
                        q == n / d,
                        r == n % d,
                ;
                assert(a == (-(q as int) - 1) * b + (b - r)) by (nonlinear_arith)
                    requires
                        a == -(n as int),
                        n == d * q + r,
                        d == b,
                ;
                lemma_fundamental_div_mod_converse(
                    a as int,
                    b as int,
                    -(q as int) - 1,
                    b as int - r as int,
                );
            }
            -(q as i128) - 1
        }
    }
}

/// The limit that one ingredient sets on the number of cups.
fn limit_of(have: i64, per_cup: i64) -> (limit: Option<i128>)
    ensures
        limit matches Some(n) ==> ingredient_limit(have as int, per_cup as int) == Some(n as int),
        limit is None ==> ingredient_limit(have as int, per_cup as int) is None,
{
    if per_cup > 0 {
        Some(floor_quotient(have as i128, per_cup as i128))
    } else if per_cup < 0 {
        Some(floor_quotient(-(have as i128), -(per_cup as i128)))
    } else if have > 0 {
        Some(i32::MAX as i128)
    } else if have < 0 {
        Some(i32::MIN as i128)
    } else {
        None
    }
}

/// The smaller of two limits.
fn tighter_of(a: Option<i128>, b: Option<i128>) -> (t: Option<i128>)
    ensures
        t matches Some(n) ==> tighter(widen(a), widen(b)) == Some(n as int),
        t is None ==> tighter(widen(a), widen(b)) is None,
{
    match (a, b) {
        (Some(x), Some(y)) => Some(if x <= y { x } else { y }),
        (Some(_), None) => a,
        (None, _) => b,
    }
}

/// A computed limit as the mathematical integer it stands for.
spec fn widen(limit: Option<i128>) -> Option<int> {
    match limit {
        Some(n) => Some(n as int),
        None => None,
    }
}

/// The shop's books as they are written to a save file.
#[derive(Clone, Copy, Debug, PartialEq, Eq, Structural)]
pub struct GameDataSave {
    pub stock: i32,
    pub money: i32,
    pub day: i32,
    pub price: i32,
    pub cup: i32,
    pub favorability: i64,
    pub inventory: CoffeeComponent,
    pub recipe: CoffeeComponent,
}

/// The shop's books.
///
/// `favorability` is in thousandths: 0 for a shop nobody likes, 1000 for one
/// that everybody likes. A `day` of 0 marks books that no game has opened yet.
#[derive(Clone, Copy, Debug, PartialEq, Eq, Structural)]
pub struct GameDataSingleton {
    pub stock: i32,
    pub money: i32,
    pub day: i32,
    pub price: i32,
    pub cup: i32,
    pub favorability: i64,
    pub inventory: CoffeeComponent,
    pub recipe: CoffeeComponent,
}

/// What one verdict adds to the favorability.
pub open spec fn nudge(feedback: CustomerFeedback) -> int {
    match feedback {
        CustomerFeedback::Love => LOVE_NUDGE as int,
        CustomerFeedback::Like => LIKE_NUDGE as int,
        CustomerFeedback::Dislike => DISLIKE_NUDGE as int,
    }
}

/// The favorability once a verdict is taken in. It is nudged upwards and
/// kept within `[0, FAVORABILITY_FULL]`.
pub open spec fn favorability_after(favorability: int, feedback: CustomerFeedback) -> int {
    clamp(favorability + nudge(feedback), 0, FAVORABILITY_FULL as int)
}

/// The favorability after a run of verdicts, taken in order.
pub open spec fn favorability_after_all(favorability: int, verdicts: Seq<CustomerFeedback>) -> int
    decreases verdicts.len(),
{
    if verdicts.len() == 0 {
        favorability
    } else {
        favorability_after(favorability_after_all(favorability, verdicts.drop_last()), verdicts.last())
    }
}

impl GameDataSingleton {
    /// Books that no game has opened yet: everything is zero.
    pub fn new() -> (game: Self)
        ensures
            game == Self::blank(),
    {
        GameDataSingleton {
            stock: 0,
            money: 0,
            day: 0,
            price: 0,
            cup: 0,
            favorability: 0,
            inventory: CoffeeComponent { coffee: 0, milk: 0, sugar: 0 },
            recipe: CoffeeComponent { coffee: 0, milk: 0, sugar: 0 },
        }
    }

    /// Books in which everything is zero.
    pub open spec fn blank() -> Self {
        GameDataSingleton {
            stock: 0,
            money: 0,
            day: 0,
            price: 0,
            cup: 0,
            favorability: 0,
            inventory: CoffeeComponent { coffee: 0, milk: 0, sugar: 0 },
            recipe: CoffeeComponent { coffee: 0, milk: 0, sugar: 0 },
        }
    }

    /// The books at the start of a new game, which keeps the recipe of `self`.
    pub open spec fn fresh(self) -> Self {
        GameDataSingleton {
            stock: 0,
            money: 300,
            day: 1,
            price: 8,
            cup: 50,
            favorability: 500,
            inventory: CoffeeComponent { coffee: 300_000, milk: 1_000_000, sugar: 1_000_000 },
            recipe: self.recipe,
        }
    }

    /// Opens a new game: day 1, 300 in money, 50 cups, 300 g of coffee, a litre
    /// of milk, a kilogram of sugar, a price of 8, nothing in stock, and a
    /// shop that half the passers-by like. The recipe stays as it is.
    pub fn start_new(&mut self)
        ensures
            *final(self) == old(self).fresh(),
    {
        self.stock = 0;
        self.money = 300;
        self.day = 1;
        self.inventory = CoffeeComponent { coffee: 300_000, milk: 1_000_000, sugar: 1_000_000 };
        self.price = 8;
        self.cup = 50;
        self.favorability = 500;
    }

    /// Whether no game has opened these books yet.
    pub fn is_new_game(&self) -> (is_new: bool)
        ensures
            is_new == (self.day == 0),
    {
        self.day == 0
    }

    /// The books once the recipe is `recipe`: the stock is what the store room
    /// yields under it.
    pub open spec fn with_recipe(self, recipe: CoffeeComponent) -> Self {
        GameDataSingleton {
            recipe,
            stock: possible_cups(self.inventory, recipe) as i32,
            ..self
        }
    }

    /// Writes down a new recipe, in thousandths per cup, and sets the stock to
    /// the number of cups that the store room yields under it.
    pub fn save_recipe(&mut self, coffee: i64, milk: i64, sugar: i64)
        ensures
            *final(self) == old(self).with_recipe(CoffeeComponent { coffee, milk, sugar }),
    {
        self.recipe.coffee = coffee;
        self.recipe.milk = milk;
        self.recipe.sugar = sugar;

        let coffee_divided = limit_of(self.inventory.coffee, self.recipe.coffee);
        let milk_divided = limit_of(self.inventory.milk, self.recipe.milk);
        let sugar_divided = limit_of(self.inventory.sugar, self.recipe.sugar);

        let possible_cups = tighter_of(coffee_divided, milk_divided);
        let possible_cups = tighter_of(possible_cups, sugar_divided);

        self.stock = match possible_cups {
            Some(cups) => saturate_i32(cups),
            None => 0,
        };
    }

    /// The books after the day's start: the cups for the stock are taken from
    /// the cup count, and one recipe's worth of each ingredient from the store
    /// room.
    pub open spec fn day_started(self) -> Self {
        GameDataSingleton {
            cup: (self.cup - self.stock) as i32,
            inventory: self.inventory.less(self.recipe),
            ..self
        }
    }

    /// Starts the day. The day counter is not touched: it moves at the day's
    /// end.
    pub fn start_day(&mut self)
        requires
            i32::MIN <= old(self).cup - old(self).stock <= i32::MAX,
        ensures
            *final(self) == old(self).day_started(),
    {
        self.cup -= self.stock;
        self.inventory.coffee = saturating_difference(self.inventory.coffee, self.recipe.coffee);
        self.inventory.milk = saturating_difference(self.inventory.milk, self.recipe.milk);
        self.inventory.sugar = saturating_difference(self.inventory.sugar, self.recipe.sugar);
    }

    /// Adds `amount` to the money and returns the new balance.
    pub fn add_money(&mut self, amount: i32) -> (balance: i32)
        requires
            i32::MIN <= old(self).money + amount <= i32::MAX,
        ensures
            balance == old(self).money + amount,
            *final(self) == (GameDataSingleton { money: balance, ..*old(self) }),
    {
        self.money += amount;
        self.money
    }

    /// The books after one verdict.
    pub open spec fn with_feedback(self, feedback: CustomerFeedback) -> Self {
        GameDataSingleton {
            favorability: favorability_after(self.favorability as int, feedback) as i64,
            ..self
        }
    }

    /// Takes one customer's verdict into the favorability: a loving one adds
    /// 0.05, a liking one 0.02, a disliking one 0.04, and the result is kept
    /// within `[0, 1]`.
    pub fn update_favorability(&mut self, feedback: &CustomerFeedback)
        ensures
            *final(self) == old(self).with_feedback(*feedback),
    {
        let step: i64 = match feedback {
            CustomerFeedback::Love => LOVE_NUDGE,
            CustomerFeedback::Like => LIKE_NUDGE,
            CustomerFeedback::Dislike => DISLIKE_NUDGE,
        };
        self.favorability = if self.favorability >= FAVORABILITY_FULL - step {
            FAVORABILITY_FULL
        } else {
            clamped(self.favorability + step, 0, FAVORABILITY_FULL)
        };
    }

    /// The books as a save file holds them.
    pub open spec fn saved(self) -> GameDataSave {
        GameDataSave {
            stock: self.stock,
            money: self.money,
            day: self.day,
            price: self.price,
            cup: self.cup,
            favorability: self.favorability,
            inventory: self.inventory,
            recipe: self.recipe,
        }
    }

    /// Copies the books out for a save file.
    pub fn to_save(&self) -> (save: GameDataSave)
        ensures
            save == self.saved(),
    {
        GameDataSave {
            stock: self.stock,
            money: self.money,
            day: self.day,
            price: self.price,
            cup: self.cup,
            favorability: self.favorability,
            inventory: CoffeeComponent {
                coffee: self.inventory.coffee,
                milk: self.inventory.milk,
                sugar: self.inventory.sugar,
            },
            recipe: CoffeeComponent {
                coffee: self.recipe.coffee,
                milk: self.recipe.milk,
                sugar: self.recipe.sugar,
            },
        }
    }

    /// The books that a save file stands for.
    pub open spec fn restored(save: GameDataSave) -> Self {
        GameDataSingleton {
            stock: save.stock,
            money: save.money,
            day: save.day,
            price: save.price,
            cup: save.cup,
            favorability: save.favorability,
            inventory: save.inventory,
            recipe: save.recipe,
        }
    }

    /// Replaces the books by what a save file held.
    pub fn from_save(&mut self, save: GameDataSave)
        ensures
            *final(self) == Self::restored(save),
    {
        self.stock = save.stock;
        self.money = save.money;
        self.day = save.day;
        self.price = save.price;
        self.cup = save.cup;
        self.favorability = save.favorability;
        self.inventory = CoffeeComponent {
            coffee: save.inventory.coffee,
            milk: save.inventory.milk,
            sugar: save.inventory.sugar,
        };
        self.recipe = CoffeeComponent {
            coffee: save.recipe.coffee,
            milk: save.recipe.milk,
            sugar: save.recipe.sugar,
        };
    }
}

/// The smallest of three numbers.
pub open spec fn least(a: int, b: int, c: int) -> int {
    if a <= b && a <= c {
        a
    } else if b <= c {
        b
    } else {
        c
    }
}

/// The whole cups that the store room yields under a recipe with three
/// amounts above zero: the smallest of the three quotients, rounded down.
pub open spec fn whole_cups(inventory: CoffeeComponent, recipe: CoffeeComponent) -> int
    recommends
        recipe.coffee > 0,
        recipe.milk > 0,
        recipe.sugar > 0,
{
    least(
        inventory.coffee / recipe.coffee,
        inventory.milk / recipe.milk,
        inventory.sugar / recipe.sugar,
    )
}

/// `n` portions of `per_cup` fit into `have` exactly when `n` is at most the
/// quotient rounded down.
proof fn lemma_portions_fit(have: int, per_cup: int, n: int)
    requires
        per_cup > 0,
    ensures
        (n <= have / per_cup) <==> (n * per_cup <= have),
{
    let q = have / per_cup;
    let r = have % per_cup;
    assert(have == per_cup * q + r && 0 <= r < per_cup) by (nonlinear_arith)
        requires
            per_cup > 0,
            q == have / per_cup,
            r == have % per_cup,
    ;
    if n <= q {
        assert(n * per_cup <= q * per_cup) by (nonlinear_arith)
            requires
                n <= q,
                per_cup > 0,
        ;
        assert(q * per_cup == per_cup * q) by (nonlinear_arith);
    } else {
        assert(n * per_cup >= (q + 1) * per_cup) by (nonlinear_arith)
            requires
                n >= q + 1,
                per_cup > 0,
        ;
        assert((q + 1) * per_cup == per_cup * q + per_cup) by (nonlinear_arith);
    }
}

/// Under a recipe whose three amounts are above zero, saving it sets the
/// stock to the smallest of the three quotients of what is owned by what a
/// cup takes, rounded down (and kept within `i32`). That number is the
/// largest number of cups for which every ingredient suffices: `n` cups can
/// be made exactly when `n` is at most that number.
pub proof fn law_stock_is_least_quotient(game: GameDataSingleton, recipe: CoffeeComponent, n: int)
    requires
        recipe.coffee > 0,
        recipe.milk > 0,
        recipe.sugar > 0,
    ensures
        game.with_recipe(recipe).stock == saturated_i32(whole_cups(game.inventory, recipe)),
        i32::MIN <= whole_cups(game.inventory, recipe) <= i32::MAX ==> game.with_recipe(
            recipe,
        ).stock == whole_cups(game.inventory, recipe),
        (n <= whole_cups(game.inventory, recipe)) <==> (n * recipe.coffee <= game.inventory.coffee
            && n * recipe.milk <= game.inventory.milk && n * recipe.sugar
            <= game.inventory.sugar),
{
    lemma_portions_fit(game.inventory.coffee as int, recipe.coffee as int, n);
    lemma_portions_fit(game.inventory.milk as int, recipe.milk as int, n);
    lemma_portions_fit(game.inventory.sugar as int, recipe.sugar as int, n);
}

/// One verdict never lowers a favorability that is at most full, and
/// whatever the favorability was, it lies within `[0, FAVORABILITY_FULL]`
/// afterwards. A full favorability stays full.
pub proof fn law_favorability_one_verdict(game: GameDataSingleton, feedback: CustomerFeedback)
    ensures
        0 <= game.with_feedback(feedback).favorability <= FAVORABILITY_FULL,
        game.favorability <= FAVORABILITY_FULL ==> game.with_feedback(feedback).favorability
            >= game.favorability,
        game.favorability == FAVORABILITY_FULL ==> game.with_feedback(feedback) == game,
        0 <= game.favorability < FAVORABILITY_FULL ==> game.with_feedback(feedback).favorability
            > game.favorability,
{
}

/// After any run of verdicts, a favorability that began within
/// `[0, FAVORABILITY_FULL]` is still within it and is no lower than it began.
/// After a run of at least one verdict it is within that range wherever it
/// began.
pub proof fn law_favorability_many_verdicts(favorability: int, verdicts: Seq<CustomerFeedback>)
    ensures
        0 <= favorability <= FAVORABILITY_FULL ==> favorability <= favorability_after_all(
            favorability,
            verdicts,
        ) <= FAVORABILITY_FULL,
        verdicts.len() > 0 ==> 0 <= favorability_after_all(favorability, verdicts)
            <= FAVORABILITY_FULL,
    decreases verdicts.len(),
{
    if verdicts.len() > 0 {
        law_favorability_many_verdicts(favorability, verdicts.drop_last());
    }
}

/// A save file that was written from the books gives the same books back.
pub proof fn law_save_round_trip(game: GameDataSingleton, save: GameDataSave)
    ensures
        GameDataSingleton::restored(game.saved()) == game,
        GameDataSingleton::restored(save).saved() == save,
{
}

} // verus!
