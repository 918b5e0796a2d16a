//! The three meals of a day, their time windows, and the record of which of
//! them were logged today.

use vstd::prelude::*;
use crate::calendar::{has_hour, hour_of, hour_of_day};

verus! {

/// One of the three meals that can be logged each day.
#[derive(Clone, Copy, Debug, PartialEq, Eq, Hash)]
pub enum MealType {
    Breakfast,
    Lunch,
    Dinner,
}

impl MealType {
    /// The first hour of the day at which the meal may be logged.
    pub open spec fn window_start(self) -> int {
        match self {
            MealType::Breakfast => 5,
            MealType::Lunch => 11,
            MealType::Dinner => 16,
        }
    }

    /// The first hour of the day at which the meal may no longer be logged.
    pub open spec fn window_end(self) -> int {
        match self {
            MealType::Breakfast => 11,
            MealType::Lunch => 16,
            MealType::Dinner => 23,
        }
    }

    /// Whether hour `hour` lies in the half-open window of the meal.
    pub open spec fn admits_hour(self, hour: int) -> bool {
        self.window_start() <= hour < self.window_end()
    }
}

/// Whether `timestamp` falls inside the window of `meal`. An instant before
/// the epoch falls inside no window.
pub open spec fn in_meal_window(timestamp: int, meal: MealType) -> bool {
    has_hour(timestamp) && meal.admits_hour(hour_of_day(timestamp))
}

/// Whether `meal_type` may be logged at `timestamp`: breakfast from hour 5 up
/// to hour 11, lunch from 11 up to 16, dinner from 16 up to 23, each without
/// its upper end.
pub fn validate_meal_time(timestamp: i64, meal_type: &MealType) -> (valid: bool)
    ensures
        valid == in_meal_window(timestamp as int, *meal_type),
{
    match hour_of(timestamp) {
        None => false,
        Some(hour) => match meal_type {
            MealType::Breakfast => hour >= 5 && hour < 11,
            MealType::Lunch => hour >= 11 && hour < 16,
            MealType::Dinner => hour >= 16 && hour < 23,
        },
    }
}

/// Which meals were logged in the current day bucket, and when.
///
/// Each timestamp is present exactly when its flag is set; see
/// [`MealStatus::is_consistent`].
#[derive(Clone, Copy, Debug, PartialEq, Eq, Hash)]
pub struct MealStatus {
    pub breakfast: bool,
    pub lunch: bool,
    pub dinner: bool,
    pub timestamp_breakfast: Option<i64>,
    pub timestamp_lunch: Option<i64>,
    pub timestamp_dinner: Option<i64>,
}

impl MealStatus {
    /// The status of a day on which nothing was logged yet.
    pub open spec fn empty() -> MealStatus {
        MealStatus {
            breakfast: false,
            lunch: false,
            dinner: false,
            timestamp_breakfast: None,
            timestamp_lunch: None,
            timestamp_dinner: None,
        }
    }

    /// All three meals are logged.
    pub open spec fn complete(self) -> bool {
        self.breakfast && self.lunch && self.dinner
    }

    /// The flag of `meal`.
    pub open spec fn has(self, meal: MealType) -> bool {
        match meal {
            MealType::Breakfast => self.breakfast,
            MealType::Lunch => self.lunch,
            MealType::Dinner => self.dinner,
        }
    }

    /// The time at which `meal` was logged, if it was.
    pub open spec fn logged_at(self, meal: MealType) -> Option<i64> {
        match meal {
            MealType::Breakfast => self.timestamp_breakfast,
            MealType::Lunch => self.timestamp_lunch,
            MealType::Dinner => self.timestamp_dinner,
        }
    }

    /// The status after `meal` is logged at `timestamp`: its flag is set and
    /// its time is `timestamp`; the other two meals are untouched.
    pub open spec fn with_meal(self, meal: MealType, timestamp: i64) -> MealStatus {
        match meal {
            MealType::Breakfast => MealStatus {
                breakfast: true,
                timestamp_breakfast: Some(timestamp),
                ..self
            },
            MealType::Lunch => MealStatus { lunch: true, timestamp_lunch: Some(timestamp), ..self },
            MealType::Dinner => MealStatus {
                dinner: true,
                timestamp_dinner: Some(timestamp),
                ..self
            },
        }
    }

    /// Each meal has a time exactly when its flag is set.
    pub open spec fn is_consistent(self) -> bool {
        &&& self.breakfast == self.timestamp_breakfast.is_some()
        &&& self.lunch == self.timestamp_lunch.is_some()
        &&& self.dinner == self.timestamp_dinner.is_some()
    }

    /// Whether all three meals of the day are logged.
    pub fn is_complete(&self) -> (done: bool)
        ensures
            done == self.complete(),
    {
        self.breakfast && self.lunch && self.dinner
    }

    /// Whether `meal_type` is logged.
    pub fn is_logged(&self, meal_type: MealType) -> (logged: bool)
        ensures
            logged == self.has(meal_type),
    {
        match meal_type {
            MealType::Breakfast => self.breakfast,
            MealType::Lunch => self.lunch,
            MealType::Dinner => self.dinner,
        }
    }

    /// Sets the flag of `meal_type` and remembers `timestamp` as its time.
    pub fn record(&mut self, meal_type: MealType, timestamp: i64)
        ensures
            *final(self) == old(self).with_meal(meal_type, timestamp),
    {
        match meal_type {
            MealType::Breakfast => {
                self.breakfast = true;
                self.timestamp_breakfast = Some(timestamp);
            },
            MealType::Lunch => {
                self.lunch = true;
                self.timestamp_lunch = Some(timestamp);
            },
            MealType::Dinner => {
                self.dinner = true;
                self.timestamp_dinner = Some(timestamp);
            },
        }
    }
}

impl Default for MealStatus {
    /// No meal logged, no time remembered.
    fn default() -> (status: MealStatus)
        ensures
            status == MealStatus::empty(),
    {
        MealStatus {
            breakfast: false,
            lunch: false,
            dinner: false,
            timestamp_breakfast: None,
            timestamp_lunch: None,
            timestamp_dinner: None,
        }
    }
}

} // verus!
