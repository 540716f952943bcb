use coffee_shop::customer::WalkDirection;
use coffee_shop::customer_spawner::{CustomerSpawner, SpawnPlan, MICROS_PER_SECOND};
use coffee_shop::utils::rng::{check_chance, shows_one};

#[test]
fn a_chance_is_won_below_its_threshold() {
    // 30 %
    assert!(check_chance(30_000, 0));
    assert!(check_chance(30_000, 299_999));
    assert!(!check_chance(30_000, 300_000));
    assert!(!check_chance(30_000, 1_000_000));
    // 12.345 %
    assert!(check_chance(12_345, 123_449));
    assert!(!check_chance(12_345, 123_450));
}

#[test]
fn a_chance_of_nothing_is_never_won() {
    assert!(!check_chance(0, 0));
    assert!(!check_chance(-1, 0));
    assert!(!check_chance(i64::MIN, 0));
}

#[test]
fn a_sure_thing_is_won_by_every_roll_below_one() {
    assert!(check_chance(100_000, 999_999));
    assert!(!check_chance(100_000, 1_000_000));
    assert!(check_chance(100_001, 1_000_000));
    assert!(check_chance(i64::MAX, u32::MAX));
}

#[test]
fn the_spawner_starts_at_three_in_ten() {
    assert_eq!(CustomerSpawner::new().spawn_chance, 30_000);
}

#[test]
fn nobody_appears_on_a_losing_roll() {
    let spawner = CustomerSpawner::new();
    assert_eq!(spawner.spawn_customer(3, 300_000), None);
    assert_eq!(spawner.spawn_customer(1, 999_999), None);
    let never = CustomerSpawner { spawn_chance: 0 };
    assert_eq!(never.spawn_customer(3, 0), None);
}

#[test]
fn the_spawn_point_sets_the_direction() {
    assert_eq!(
        CustomerSpawner::plan_spawn(0, 0),
        SpawnPlan { scene: 0, lane: 0, direction: WalkDirection::Left }
    );
    assert_eq!(
        CustomerSpawner::plan_spawn(2, 1),
        SpawnPlan { scene: 2, lane: 1, direction: WalkDirection::Right }
    );
    assert_eq!(
        CustomerSpawner::plan_spawn(i32::MAX, 2),
        SpawnPlan { scene: i32::MAX as usize, lane: 2, direction: WalkDirection::Left }
    );
}

#[test]
fn the_timer_waits_a_second_divided_by_the_speed() {
    assert_eq!(MICROS_PER_SECOND, 1_000_000);
    assert_eq!(CustomerSpawner::update_timer_speed(1000), Some(1_000_000));
    assert_eq!(CustomerSpawner::update_timer_speed(2000), Some(500_000));
    assert_eq!(CustomerSpawner::update_timer_speed(3000), Some(333_333));
    assert_eq!(CustomerSpawner::update_timer_speed(500), Some(2_000_000));
    assert_eq!(CustomerSpawner::update_timer_speed(1), Some(1_000_000_000));
    assert_eq!(CustomerSpawner::update_timer_speed(u32::MAX), Some(0));
    assert_eq!(CustomerSpawner::update_timer_speed(0), None);
}

#[test]
fn a_toss_counts_as_true_when_it_shows_one() {
    assert!(shows_one(1));
    assert!(!shows_one(0));
    assert!(!shows_one(2));
    assert!(!shows_one(-1));
    assert!(!shows_one(i32::MAX));
    assert!(!shows_one(i32::MIN));
}
