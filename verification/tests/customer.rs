use coffee_shop::customer::{
    classify, satisfaction_score, Customer, CustomerState, PlacedOrder, WalkDirection, FAIR_PRICE,
    LIKE_ABOVE, LOVE_ABOVE, ORDER_AMOUNT, ROLL_FULL, SCORE_FULL,
};
use coffee_shop::customer_feedback::CustomerFeedback;
use coffee_shop::customer_variant::CustomerVariant;
use coffee_shop::singletons::game_data::{CoffeeComponent, GameDataSingleton};

fn shop(coffee: i64, milk: i64, sugar: i64) -> GameDataSingleton {
    let mut game = GameDataSingleton::new();
    game.start_new();
    game.recipe = CoffeeComponent { coffee, milk, sugar };
    game
}

fn taster() -> Customer {
    let mut customer = Customer::new(1);
    customer.variant = Some(CustomerVariant::new());
    customer
}

fn verdict_on(coffee: i64, milk: i64, sugar: i64) -> CustomerFeedback {
    let mut game = shop(coffee, milk, sugar);
    let mut customer = taster();
    customer.complete_order(true, &mut game).unwrap()
}

#[test]
fn the_common_taste() {
    let variant = CustomerVariant::new();
    assert_eq!(variant.coffee_pref, 7_000);
    assert_eq!(variant.milk_pref, 120_000);
    assert_eq!(variant.sugar_pref, 10_000);
}

#[test]
fn a_new_customer_walks_left() {
    let customer = Customer::new(17);
    assert_eq!(customer.id, 17);
    assert_eq!(customer.customer_state, CustomerState::Walking);
    assert_eq!(customer.walk_direction, WalkDirection::Left);
    assert_eq!(customer.variant, None);
}

#[test]
fn only_a_waiting_customer_stands_still() {
    let mut customer = Customer::new(1);
    assert!(customer.is_moving());
    customer.customer_state = CustomerState::Waiting;
    assert!(!customer.is_moving());
    customer.customer_state = CustomerState::Leaving;
    assert!(customer.is_moving());
}

#[test]
fn a_walk_to_the_right_is_mirrored() {
    let mut customer = Customer::new(1);
    assert!(customer.set_walk_direction(WalkDirection::Right));
    assert_eq!(customer.walk_direction, WalkDirection::Right);
    assert!(!customer.set_walk_direction(WalkDirection::Left));
    assert_eq!(customer.walk_direction, WalkDirection::Left);
    assert_eq!(customer.customer_state, CustomerState::Walking);
    assert_eq!(customer.id, 1);
}

#[test]
fn score_constants() {
    assert_eq!(SCORE_FULL, 450_000);
    // 0.85 and 0.5 of full marks
    assert_eq!(LOVE_ABOVE * 100, SCORE_FULL * 85);
    assert_eq!(LIKE_ABOVE * 2, SCORE_FULL);
    assert_eq!(FAIR_PRICE, 8);
    assert_eq!(ORDER_AMOUNT, 1);
    assert_eq!(ROLL_FULL, 1_000_000);
}

#[test]
fn a_perfect_match_scores_full_and_is_loved() {
    let recipe = CoffeeComponent { coffee: 7_000, milk: 120_000, sugar: 10_000 };
    let score = satisfaction_score(&recipe, &CustomerVariant::new());
    assert_eq!(score, 450_000);
    assert_eq!(classify(score), CustomerFeedback::Love);
    assert_eq!(verdict_on(7_000, 120_000, 10_000), CustomerFeedback::Love);
}

#[test]
fn score_is_one_less_the_mean_of_the_weighed_distances() {
    let variant = CustomerVariant::new();
    // coffee off by 1 g: 1/10 of a third
    let recipe = CoffeeComponent { coffee: 8_000, milk: 120_000, sugar: 10_000 };
    assert_eq!(satisfaction_score(&recipe, &variant), 450_000 - 15_000);
    // milk off by 15 mL: 15/150 of a third
    let recipe = CoffeeComponent { coffee: 7_000, milk: 105_000, sugar: 10_000 };
    assert_eq!(satisfaction_score(&recipe, &variant), 450_000 - 15_000);
    // sugar off by 1.5 g: 1.5/15 of a third
    let recipe = CoffeeComponent { coffee: 7_000, milk: 120_000, sugar: 11_500 };
    assert_eq!(satisfaction_score(&recipe, &variant), 450_000 - 15_000);
    // all three at once, on either side
    let recipe = CoffeeComponent { coffee: 6_000, milk: 135_000, sugar: 8_500 };
    assert_eq!(satisfaction_score(&recipe, &variant), 450_000 - 45_000);
    // the smallest step of each ingredient
    let recipe = CoffeeComponent { coffee: 7_001, milk: 120_001, sugar: 10_001 };
    assert_eq!(satisfaction_score(&recipe, &variant), 450_000 - 15 - 1 - 10);
}

#[test]
fn score_never_falls_below_zero() {
    let variant = CustomerVariant::new();
    let recipe = CoffeeComponent { coffee: 37_000, milk: 120_000, sugar: 10_000 };
    assert_eq!(satisfaction_score(&recipe, &variant), 0);
    let recipe = CoffeeComponent { coffee: 36_999, milk: 120_000, sugar: 10_000 };
    assert_eq!(satisfaction_score(&recipe, &variant), 15);
    let recipe = CoffeeComponent { coffee: i64::MAX, milk: i64::MIN, sugar: i64::MAX };
    assert_eq!(satisfaction_score(&recipe, &variant), 0);
    let far = CustomerVariant { coffee_pref: i64::MIN, milk_pref: i64::MAX, sugar_pref: i64::MIN };
    assert_eq!(satisfaction_score(&recipe, &far), 0);
    assert_eq!(classify(0), CustomerFeedback::Dislike);
}

#[test]
fn the_thresholds_are_strict() {
    assert_eq!(classify(450_000), CustomerFeedback::Love);
    assert_eq!(classify(382_501), CustomerFeedback::Love);
    assert_eq!(classify(382_500), CustomerFeedback::Like);
    assert_eq!(classify(225_001), CustomerFeedback::Like);
    assert_eq!(classify(225_000), CustomerFeedback::Dislike);
    assert_eq!(classify(1), CustomerFeedback::Dislike);
    assert_eq!(classify(-1), CustomerFeedback::Dislike);
}

#[test]
fn a_score_of_exactly_085_is_liked_not_loved() {
    let variant = CustomerVariant::new();
    // coffee off by 4.5 g: 0.45 / 3 = 0.15 off the score
    let recipe = CoffeeComponent { coffee: 11_500, milk: 120_000, sugar: 10_000 };
    assert_eq!(satisfaction_score(&recipe, &variant), 382_500);
    assert_eq!(verdict_on(11_500, 120_000, 10_000), CustomerFeedback::Like);
    assert_eq!(verdict_on(11_499, 120_000, 10_000), CustomerFeedback::Love);
    assert_eq!(verdict_on(2_500, 120_000, 10_000), CustomerFeedback::Like);
    assert_eq!(verdict_on(2_501, 120_000, 10_000), CustomerFeedback::Love);
    // milk off by 67.5 mL
    assert_eq!(verdict_on(7_000, 187_500, 10_000), CustomerFeedback::Like);
    assert_eq!(verdict_on(7_000, 187_499, 10_000), CustomerFeedback::Love);
    // sugar off by 6.75 g
    assert_eq!(verdict_on(7_000, 120_000, 16_750), CustomerFeedback::Like);
    assert_eq!(verdict_on(7_000, 120_000, 16_749), CustomerFeedback::Love);
}

#[test]
fn a_score_of_exactly_05_is_disliked() {
    let variant = CustomerVariant::new();
    let recipe = CoffeeComponent { coffee: 22_000, milk: 120_000, sugar: 10_000 };
    assert_eq!(satisfaction_score(&recipe, &variant), 225_000);
    assert_eq!(verdict_on(22_000, 120_000, 10_000), CustomerFeedback::Dislike);
    assert_eq!(verdict_on(21_999, 120_000, 10_000), CustomerFeedback::Like);
    assert_eq!(verdict_on(7_000, 345_000, 10_000), CustomerFeedback::Dislike);
    assert_eq!(verdict_on(7_000, 344_999, 10_000), CustomerFeedback::Like);
    assert_eq!(verdict_on(7_000, 120_000, 32_500), CustomerFeedback::Dislike);
    assert_eq!(verdict_on(7_000, 120_000, 32_499), CustomerFeedback::Like);
}

#[test]
fn the_verdict_depends_on_recipe_and_taste_alone() {
    let mut first = shop(9_000, 100_000, 12_000);
    let mut second = shop(9_000, 100_000, 12_000);
    second.money = -5;
    second.favorability = 0;
    second.price = 99;
    second.day = 12;
    let mut one = taster();
    let mut other = taster();
    other.id = 99;
    other.customer_state = CustomerState::Waiting;
    other.walk_direction = WalkDirection::Right;
    assert_eq!(
        one.complete_order(true, &mut first),
        other.complete_order(true, &mut second)
    );
}

#[test]
fn the_price_moves_the_chance() {
    let mut game = shop(7_000, 120_000, 10_000);
    assert_eq!(game.favorability, 500);
    // fair price: chance 0.5
    assert!(Customer::should_buy(&game, 499_999));
    assert!(!Customer::should_buy(&game, 500_000));
    // a price of 12: factor 0.5, chance 0.25
    game.price = 12;
    assert!(Customer::should_buy(&game, 249_999));
    assert!(!Customer::should_buy(&game, 250_000));
    // a price of 5: factor 1.375
    game.price = 5;
    assert!(Customer::should_buy(&game, 687_499));
    assert!(!Customer::should_buy(&game, 687_500));
    // the factor is capped at 1.5
    game.price = 4;
    assert!(Customer::should_buy(&game, 749_999));
    assert!(!Customer::should_buy(&game, 750_000));
    game.price = 0;
    assert!(!Customer::should_buy(&game, 750_000));
    game.price = i32::MIN;
    assert!(Customer::should_buy(&game, 749_999));
    assert!(!Customer::should_buy(&game, 750_000));
    // and never below 0.2
    game.price = 14;
    assert!(Customer::should_buy(&game, 124_999));
    assert!(!Customer::should_buy(&game, 125_000));
    game.price = 15;
    assert!(Customer::should_buy(&game, 99_999));
    assert!(!Customer::should_buy(&game, 100_000));
    game.price = i32::MAX;
    assert!(Customer::should_buy(&game, 99_999));
    assert!(!Customer::should_buy(&game, 100_000));
}

#[test]
fn favorability_moves_the_chance() {
    let mut game = shop(7_000, 120_000, 10_000);
    game.favorability = 0;
    assert!(!Customer::should_buy(&game, 0));
    game.favorability = 1000;
    assert!(Customer::should_buy(&game, 999_999));
    assert!(!Customer::should_buy(&game, 1_000_000));
    game.favorability = -10;
    assert!(!Customer::should_buy(&game, 0));
    game.favorability = i64::MAX;
    assert!(Customer::should_buy(&game, u32::MAX));
    game.favorability = i64::MIN;
    assert!(!Customer::should_buy(&game, 0));
}

#[test]
fn a_buyer_waits_and_orders_one_cup() {
    let game = shop(7_000, 120_000, 10_000);
    let mut customer = taster();
    let order = customer.decide_to_queue(1, &game, 499_999);
    assert_eq!(customer.customer_state, CustomerState::Waiting);
    assert_eq!(order, Some(PlacedOrder { customer, amount: 1 }));
    assert_eq!(customer.make_order(), PlacedOrder { customer, amount: 1 });
}

#[test]
fn who_does_not_buy_leaves() {
    let game = shop(7_000, 120_000, 10_000);
    let mut customer = taster();
    let order = customer.decide_to_queue(1, &game, 500_000);
    assert_eq!(customer.customer_state, CustomerState::Leaving);
    assert_eq!(order, None);
}

#[test]
fn somebody_else_in_the_catchment_is_ignored() {
    let game = shop(7_000, 120_000, 10_000);
    let mut customer = taster();
    let before = customer;
    let order = customer.decide_to_queue(2, &game, 0);
    assert_eq!(customer, before);
    assert_eq!(order, None);
}

#[test]
fn a_customer_turned_away_leaves_without_a_verdict() {
    let mut game = shop(7_000, 120_000, 10_000);
    let before = game;
    let mut customer = Customer::new(4);
    customer.customer_state = CustomerState::Waiting;
    assert_eq!(customer.complete_order(false, &mut game), None);
    assert_eq!(customer.customer_state, CustomerState::Leaving);
    assert_eq!(game, before);

    let mut customer = taster();
    assert_eq!(customer.complete_order(false, &mut game), None);
    assert_eq!(customer.customer_state, CustomerState::Leaving);
    assert_eq!(game, before);
}

#[test]
fn a_served_customer_leaves_and_nudges_the_favorability() {
    let mut game = shop(7_000, 120_000, 10_000);
    let mut customer = taster();
    customer.customer_state = CustomerState::Waiting;
    assert_eq!(customer.complete_order(true, &mut game), Some(CustomerFeedback::Love));
    assert_eq!(customer.customer_state, CustomerState::Leaving);
    assert_eq!(game.favorability, 550);

    let mut game = shop(12_000, 120_000, 10_000);
    let mut customer = taster();
    assert_eq!(customer.complete_order(true, &mut game), Some(CustomerFeedback::Like));
    assert_eq!(game.favorability, 520);

    let mut game = shop(30_000, 120_000, 10_000);
    let mut customer = taster();
    assert_eq!(customer.complete_order(true, &mut game), Some(CustomerFeedback::Dislike));
    assert_eq!(game.favorability, 540);
    assert_eq!(game.money, 300);
    assert_eq!(game.recipe, CoffeeComponent { coffee: 30_000, milk: 120_000, sugar: 10_000 });
}
