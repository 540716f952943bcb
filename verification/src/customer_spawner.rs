//! Where and when new customers appear.

use vstd::prelude::*;

use crate::customer::WalkDirection;
use crate::utils::rng::{chance_threshold, check_chance, coin_toss, randi};

verus! {

/// The microseconds in a second.
pub const MICROS_PER_SECOND: u64 = 1_000_000;

/// Decides at each tick of its timer whether a customer appears.
/// `spawn_chance` is the chance of that, in thousandths of a percent.
#[derive(Clone, Copy, Debug, PartialEq, Eq, Structural)]
pub struct CustomerSpawner {
    pub spawn_chance: i64,
}

/// Where a new customer appears: which of the customer scenes they are made
/// from, at which spawn point they start, and which way they walk.
#[derive(Clone, Copy, Debug, PartialEq, Eq, Structural)]
pub struct SpawnPlan {
    pub scene: usize,
    pub lane: usize,
    pub direction: WalkDirection,
}

/// The way a customer walks who starts at the given spawn point: to the right
/// from point 1, to the left from any other.
pub open spec fn lane_direction(lane: int) -> WalkDirection {
    if lane == 1 {
        WalkDirection::Right
    } else {
        WalkDirection::Left
    }
}

/// The time between two ticks of the spawn timer at a given fast-forward
/// speed, in microseconds, rounded down: one second divided by the speed,
/// which is in thousandths.
pub open spec fn timer_wait(ff_speed: u32) -> int {
    (MICROS_PER_SECOND * 1000) / ff_speed as int
}

impl CustomerSpawner {
    /// A spawner at which a customer appears at three ticks in ten.
    pub fn new() -> (spawner: Self)
        ensures
            spawner.spawn_chance == 30_000,
    {
        CustomerSpawner { spawn_chance: 30_000 }
    }

    /// The plan that goes with two draws: the scene drawn, the spawn point
    /// drawn, and the direction that belongs to that point.
    pub fn plan_spawn(scene_draw: i32, lane_draw: i32) -> (plan: SpawnPlan)
        requires
            0 <= scene_draw,
            0 <= lane_draw,
        ensures
            plan.scene == scene_draw,
            plan.lane == lane_draw,
            plan.direction == lane_direction(lane_draw as int),
    {
        SpawnPlan {
            scene: scene_draw as usize,
            lane: lane_draw as usize,
            direction: if lane_draw == 1 {
                WalkDirection::Right
            } else {
                WalkDirection::Left
            },
        }
    }

    /// One tick of the timer. A customer appears only where `roll` wins at
    /// the spawn chance. Then one of the `scene_count` customer scenes is
    /// drawn, and a toss of a coin picks the spawn point: 0 or 1.
    pub fn spawn_customer(&self, scene_count: usize, roll: u32) -> (plan: Option<SpawnPlan>)
        requires
            1 <= scene_count <= i32::MAX,
        ensures
            (plan is Some) == (roll < chance_threshold(self.spawn_chance)),
            plan matches Some(p) ==> {
                &&& p.scene < scene_count
                &&& p.lane <= 1
                &&& p.direction == lane_direction(p.lane as int)
            },
    {
        let is_spawning = check_chance(self.spawn_chance, roll);
        if !is_spawning {
            return None;
        }
        let i = randi(0, scene_count as i32 - 1);
        let lane = coin_toss();
        Some(Self::plan_spawn(i, lane))
    }

    /// The wait of the spawn timer, in microseconds, once time runs at
    /// `ff_speed` thousandths of its usual speed: the shorter, the faster.
    /// There is none at a speed of zero.
    pub fn update_timer_speed(ff_speed: u32) -> (wait: Option<u64>)
        ensures
            ff_speed == 0 ==> wait is None,
            ff_speed != 0 ==> wait == Some(timer_wait(ff_speed) as u64),
    {
        if ff_speed == 0 {
            None
        } else {
            Some(MICROS_PER_SECOND * 1000 / ff_speed as u64)
        }
    }
}

} // verus!
