//! The rules of a small coffee-shop game: ingredients and recipes, the shop's
//! books, customers and their verdicts, and the selling day's clock and order
//! queue.
//!
//! The game runs inside an engine that counts in floating-point numbers. Here
//! every fractional quantity is a whole number of small units, so that all
//! arithmetic is exact:
//!
//! * amounts of ingredients, the favorability, speeds and chances are in
//!   thousandths;
//! * a roll, which is a random draw between 0 and 1, is in millionths;
//! * frame times are in microseconds.
//!
//! The modules:
//!
//! * [`singletons::game_data`]: the shop's books, and what saving a recipe,
//!   starting a day and a customer's verdict do to them;
//! * [`customer`], [`customer_variant`], [`customer_feedback`]: a passer-by,
//!   their taste, and what they think of a cup;
//! * [`customer_spawner`]: when and where customers appear;
//! * [`selling_phase`]: the day's clock, the queue of orders and the tally;
//! * [`prep_phase`], [`shop_tab`]: what the player does before the day;
//! * [`error_alert`], [`labels`]: the texts that the player reads;
//! * [`utils::rng`]: random draws;
//! * [`units`]: the arithmetic that the others share.

pub mod customer;
pub mod customer_feedback;
pub mod customer_spawner;
pub mod customer_variant;
pub mod error_alert;
pub mod labels;
pub mod prep_phase;
pub mod selling_phase;
pub mod shop_tab;
pub mod singletons;
pub mod units;
pub mod utils;
