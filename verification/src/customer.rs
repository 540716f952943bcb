//! A passer-by: whether they queue up, and what they think of the coffee.

use vstd::prelude::*;

use crate::customer_feedback::CustomerFeedback;
use crate::customer_variant::CustomerVariant;
use crate::singletons::game_data::{CoffeeComponent, GameDataSingleton};
use crate::units::{clamp, product};

verus! {

/// The score of a cup that matches the customer's taste exactly. Scores are
/// counted in 450 000ths, the common denominator of the three tolerances and
/// of the thousandths in which amounts are held.
pub const SCORE_FULL: i64 = 450_000;

/// A customer loves a cup that scores above this: 0.85 of `SCORE_FULL`.
pub const LOVE_ABOVE: i64 = 382_500;

/// A customer likes a cup that scores above this: 0.5 of `SCORE_FULL`.
pub const LIKE_ABOVE: i64 = 225_000;

/// The price at which the wish to buy is neither raised nor lowered.
pub const FAIR_PRICE: i32 = 8;

/// The number of cups in one order.
pub const ORDER_AMOUNT: i32 = 1;

/// A roll is a whole number of millionths below this.
pub const ROLL_FULL: u32 = 1_000_000;

/// What a customer is doing.
#[derive(Clone, Copy, Debug, PartialEq, Eq, Structural)]
pub enum CustomerState {
    Walking,
    Waiting,
    Leaving,
}

/// The way a customer walks along the street.
#[derive(Clone, Copy, Debug, PartialEq, Eq, Structural)]
pub enum WalkDirection {
    Left,
    Right,
}

/// One passer-by. `id` tells customers apart; `variant` is their taste, if
/// they were given one.
#[derive(Clone, Copy, Debug, PartialEq, Eq, Structural)]
pub struct Customer {
    pub id: u64,
    pub customer_state: CustomerState,
    pub walk_direction: WalkDirection,
    pub variant: Option<CustomerVariant>,
}

/// An order as a customer places it.
#[derive(Clone, Copy, Debug, PartialEq, Eq, Structural)]
pub struct PlacedOrder {
    pub customer: Customer,
    pub amount: i32,
}

/// How far apart two amounts are.
pub open spec fn distance(a: int, b: int) -> int {
    if a >= b {
        a - b
    } else {
        b - a
    }
}

/// How far a recipe is from a taste, in score units: each ingredient's
/// distance is weighed by its tolerance (10 g of coffee, 150 mL of milk, 15 g
/// of sugar) and the three are averaged.
pub open spec fn mismatch(recipe: CoffeeComponent, variant: CustomerVariant) -> int {
    15 * distance(recipe.coffee as int, variant.coffee_pref as int) + distance(
        recipe.milk as int,
        variant.milk_pref as int,
    ) + 10 * distance(recipe.sugar as int, variant.sugar_pref as int)
}

/// The score of a recipe with a customer of the given taste: full marks less
/// the mismatch, kept within `[0, SCORE_FULL]`.
pub open spec fn satisfaction(recipe: CoffeeComponent, variant: CustomerVariant) -> int {
    clamp(SCORE_FULL - mismatch(recipe, variant), 0, SCORE_FULL as int)
}

/// The verdict that goes with a score. Both thresholds are strict.
pub open spec fn verdict(score: int) -> CustomerFeedback {
    if score > LOVE_ABOVE {
        CustomerFeedback::Love
    } else if score > LIKE_ABOVE {
        CustomerFeedback::Like
    } else {
        CustomerFeedback::Dislike
    }
}

/// The verdict of a customer of the given taste on a recipe.
pub open spec fn feedback_for(recipe: CoffeeComponent, variant: CustomerVariant) -> CustomerFeedback {
    verdict(satisfaction(recipe, variant))
}

/// How much the price raises or lowers the wish to buy, in thousandths:
/// `1 - (price - 8) / 8`, kept within `[0.2, 1.5]`.
pub open spec fn price_factor(price: int) -> int {
    clamp(2000 - 125 * price, 200, 1500)
}

/// The chance that a passer-by buys, in millionths: the shop's favorability
/// times the price factor.
pub open spec fn buy_chance(game: GameDataSingleton) -> int {
    game.favorability * price_factor(game.price as int)
}

/// The distance between two amounts.
fn distance_of(a: i64, b: i64) -> (d: i128)
    ensures
        d == distance(a as int, b as int),
{
    if a >= b {
        a as i128 - b as i128
    } else {
        b as i128 - a as i128
    }
}

/// Scores a recipe against a taste.
pub fn satisfaction_score(recipe: &CoffeeComponent, variant: &CustomerVariant) -> (score: i64)
    ensures
        score == satisfaction(*recipe, *variant),
{
    let diff_coffee = distance_of(recipe.coffee, variant.coffee_pref);
    let diff_milk = distance_of(recipe.milk, variant.milk_pref);
    let diff_sugar = distance_of(recipe.sugar, variant.sugar_pref);
    let off: i128 = 15 * diff_coffee + diff_milk + 10 * diff_sugar;
    if off >= SCORE_FULL as i128 {
        0
    } else {
        SCORE_FULL - off as i64
    }
}

/// Turns a score into a verdict.
pub fn classify(score: i64) -> (feedback: CustomerFeedback)
    ensures
        feedback == verdict(score as int),
{
    if score > LOVE_ABOVE {
        CustomerFeedback::Love
    } else if score > LIKE_ABOVE {
        CustomerFeedback::Like
    } else {
        CustomerFeedback::Dislike
    }
}

impl Customer {
    /// A customer who has just appeared: walking to the left, with no taste
    /// given yet.
    pub fn new(id: u64) -> (customer: Self)
        ensures
            customer == (Customer {
                id,
                customer_state: CustomerState::Walking,
                walk_direction: WalkDirection::Left,
                variant: None,
            }),
    {
        Customer {
            id,
            customer_state: CustomerState::Walking,
            walk_direction: WalkDirection::Left,
            variant: None,
        }
    }

    /// Whether the customer moves on this tick: they do unless they wait.
    pub fn is_moving(&self) -> (moving: bool)
        ensures
            moving == (self.customer_state != CustomerState::Waiting),
    {
        match self.customer_state {
            CustomerState::Walking => true,
            CustomerState::Waiting => false,
            CustomerState::Leaving => true,
        }
    }

    /// Turns the customer to walk in `direction`, and says whether their
    /// picture has to be mirrored, which it has for a walk to the right.
    pub fn set_walk_direction(&mut self, direction: WalkDirection) -> (mirrored: bool)
        ensures
            *final(self) == (Customer { walk_direction: direction, ..*old(self) }),
            mirrored == (direction == WalkDirection::Right),
    {
        self.walk_direction = direction;
        match self.walk_direction {
            WalkDirection::Right => true,
            WalkDirection::Left => false,
        }
    }

    /// Whether a passer-by buys, given the roll they drew: they do where the
    /// roll, a number of millionths, lies below the chance.
    pub fn should_buy(game: &GameDataSingleton, roll: u32) -> (buys: bool)
        ensures
            buys == (roll < buy_chance(*game)),
    {
        let price: i64 = game.price as i64;
        let raw: i64 = 2000 - 125 * price;
        let factor: i64 = if raw < 200 {
            200
        } else if raw > 1500 {
            1500
        } else {
            raw
        };
        let base_chance: i128 = product(game.favorability, factor);
        (roll as i128) < base_chance
    }

    /// The order that this customer places: one cup.
    pub fn make_order(&self) -> (order: PlacedOrder)
        ensures
            order == (PlacedOrder { customer: *self, amount: ORDER_AMOUNT }),
    {
        PlacedOrder { customer: *self, amount: ORDER_AMOUNT }
    }

    /// The customer once they have made up their mind with the given roll.
    pub open spec fn decided(self, game: GameDataSingleton, roll: u32) -> Customer {
        Customer {
            customer_state: if roll < buy_chance(game) {
                CustomerState::Waiting
            } else {
                CustomerState::Leaving
            },
            ..self
        }
    }

    /// Called when `body` walks into the shop's catchment: if that is this
    /// customer, they decide on `roll` whether to buy. A buyer waits and
    /// places an order, which is returned; anybody else leaves.
    pub fn decide_to_queue(&mut self, body: u64, game: &GameDataSingleton, roll: u32) -> (order:
        Option<PlacedOrder>)
        ensures
            body != old(self).id ==> *final(self) == *old(self) && order is None,
            body == old(self).id ==> *final(self) == old(self).decided(*game, roll),
            body == old(self).id && roll < buy_chance(*game) ==> order == Some(
                PlacedOrder { customer: *final(self), amount: ORDER_AMOUNT },
            ),
            body == old(self).id && roll >= buy_chance(*game) ==> order is None,
    {
        if body != self.id {
            return None;
        }
        let is_buying = Self::should_buy(game, roll);
        if is_buying {
            self.customer_state = CustomerState::Waiting;
            Some(self.make_order())
        } else {
            self.customer_state = CustomerState::Leaving;
            None
        }
    }

    /// The customer on their way out.
    pub open spec fn leaving(self) -> Customer {
        Customer { customer_state: CustomerState::Leaving, ..self }
    }

    /// Ends the customer's visit. Whatever happened, they leave. One who was
    /// turned away gives no verdict. One who was served passes a verdict on
    /// the shop's recipe, which is returned and taken into the shop's
    /// favorability.
    pub fn complete_order(&mut self, is_bought: bool, game: &mut GameDataSingleton) -> (feedback:
        Option<CustomerFeedback>)
        requires
            is_bought ==> old(self).variant is Some,
        ensures
            *final(self) == old(self).leaving(),
            !is_bought ==> feedback is None && *final(game) == *old(game),
            is_bought ==> feedback == Some(feedback_for(old(game).recipe, old(self).variant->0)),
            is_bought ==> *final(game) == old(game).with_feedback(
                feedback_for(old(game).recipe, old(self).variant->0),
            ),
    {
        self.customer_state = CustomerState::Leaving;

        if !is_bought {
            return None;
        }
        let variant = self.variant.unwrap();
        let score = satisfaction_score(&game.recipe, &variant);
        let feedback = classify(score);
        game.update_favorability(&feedback);
        Some(feedback)
    }
}

/// A recipe that is exactly to a customer's taste gets full marks, and is
/// loved.
pub proof fn law_perfect_match_is_loved(recipe: CoffeeComponent, variant: CustomerVariant)
    requires
        recipe.coffee == variant.coffee_pref,
        recipe.milk == variant.milk_pref,
        recipe.sugar == variant.sugar_pref,
    ensures
        satisfaction(recipe, variant) == SCORE_FULL,
        feedback_for(recipe, variant) == CustomerFeedback::Love,
{
}

/// The verdict follows from the mismatch alone, and both thresholds are
/// strict: a score of exactly 0.85 is liked, not loved, and one of exactly
/// 0.5 is disliked.
pub proof fn law_verdict_by_mismatch(recipe: CoffeeComponent, variant: CustomerVariant)
    ensures
        0 <= satisfaction(recipe, variant) <= SCORE_FULL,
        mismatch(recipe, variant) >= 0,
        feedback_for(recipe, variant) == CustomerFeedback::Love <==> mismatch(recipe, variant)
            < SCORE_FULL - LOVE_ABOVE,
        feedback_for(recipe, variant) == CustomerFeedback::Like <==> SCORE_FULL - LOVE_ABOVE
            <= mismatch(recipe, variant) < SCORE_FULL - LIKE_ABOVE,
        feedback_for(recipe, variant) == CustomerFeedback::Dislike <==> mismatch(recipe, variant)
            >= SCORE_FULL - LIKE_ABOVE,
        satisfaction(recipe, variant) == LOVE_ABOVE ==> feedback_for(recipe, variant)
            == CustomerFeedback::Like,
        satisfaction(recipe, variant) == LIKE_ABOVE ==> feedback_for(recipe, variant)
            == CustomerFeedback::Dislike,
{
}

/// The price factor lies within `[0.2, 1.5]`, is 1 at the fair price, and
/// never rises with the price.
pub proof fn law_price_factor(price: int, dearer: int)
    requires
        price <= dearer,
    ensures
        200 <= price_factor(price) <= 1500,
        price_factor(FAIR_PRICE as int) == 1000,
        price_factor(dearer) <= price_factor(price),
{
}

} // verus!
