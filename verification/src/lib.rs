//! A daily meal-logging tracker: points per meal, a bonus for a complete day,
//! and a streak of consecutive complete days with milestone bonuses.
//!
//! Every operation works on one [`FoodTrackerAccount`] and a caller-supplied
//! Unix timestamp; all of it is synchronous and free of I/O.

pub mod calendar;
pub mod error;
pub mod laws;
pub mod meal;
pub mod tracker;

pub use calendar::{day_of, hour_of, SECONDS_PER_DAY, SECONDS_PER_HOUR};
pub use error::FoodTrackerError;
pub use meal::{validate_meal_time, MealStatus, MealType};
pub use tracker::{
    advance, get_stats, initialize, log_meal, log_meal_outcome, milestone_bonus, same_identity,
    streak_bonus, try_log_meal, FoodTrackerAccount, TrackerState, TrackerStats, COMPLETION_BONUS,
    MAX_AWARD, MEAL_POINTS,
};
