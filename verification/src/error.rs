//! The outcomes that a caller can correct.

use vstd::prelude::*;

verus! {

/// Why an operation on a tracker was refused. A refused operation leaves the
/// tracker exactly as it was.
#[derive(Clone, Copy, Debug, PartialEq, Eq, Hash)]
pub enum FoodTrackerError {
    /// The meal was already recorded for the current day bucket.
    MealAlreadyLogged,
    /// The hour of the timestamp is outside the window of the meal.
    InvalidMealTime,
    /// The caller is not the owner of the tracker.
    Unauthorized,
}

impl FoodTrackerError {
    /// The text of [`FoodTrackerError::message`], as a sequence of characters.
    pub open spec fn message_text(self) -> Seq<char> {
        match self {
            FoodTrackerError::MealAlreadyLogged => "This meal has already been logged today"@,
            FoodTrackerError::InvalidMealTime => "Current time is outside the valid window for this meal"@,
            FoodTrackerError::Unauthorized => "You are not authorized to access this tracker"@,
        }
    }

    /// A sentence for the caller that says what went wrong.
    pub fn message(&self) -> (text: &'static str)
        ensures
            text@ == self.message_text(),
    {
        match self {
            FoodTrackerError::MealAlreadyLogged => "This meal has already been logged today",
            FoodTrackerError::InvalidMealTime => "Current time is outside the valid window for this meal",
            FoodTrackerError::Unauthorized => "You are not authorized to access this tracker",
        }
    }
}

} // verus!
