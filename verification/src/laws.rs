//! What holds of the tracker across calls, proved from the definitions that
//! the contracts of [`crate::tracker`] and [`crate::meal`] are stated in.

use vstd::prelude::*;
use crate::calendar::{day_index, has_hour, hour_of_day};
use crate::error::FoodTrackerError;
use crate::meal::{in_meal_window, MealStatus, MealType};
use crate::tracker::{log_meal_outcome, milestone_bonus, TrackerState, MAX_AWARD};

verus! {

/// The rollover is idle within a day: after a meal was logged at `first`, the
/// rollover at any `second` of the same day bucket, or of an earlier one,
/// changes nothing, so what was logged at `first` is still there.
pub proof fn lemma_same_day_rollover_is_idle(
    state: TrackerState,
    user: Seq<u8>,
    meal: MealType,
    first: i64,
    second: i64,
)
    requires
        log_meal_outcome(state, user, meal, first) is Ok,
        day_index(second as int) <= day_index(first as int),
    ensures
        ({
            let logged = log_meal_outcome(state, user, meal, first)->Ok_0;
            &&& logged.advanced(second) == logged
            &&& logged.today_meals.has(meal)
        }),
{
}

/// Two meals logged in one day bucket: the second call keeps every flag that
/// the first left, and adds only its own.
pub proof fn lemma_second_log_of_day_keeps_flags(
    state: TrackerState,
    user: Seq<u8>,
    first_meal: MealType,
    first: i64,
    second_meal: MealType,
    second: i64,
    other: MealType,
)
    requires
        log_meal_outcome(state, user, first_meal, first) is Ok,
        day_index(second as int) == day_index(first as int),
        log_meal_outcome(
            log_meal_outcome(state, user, first_meal, first)->Ok_0,
            user,
            second_meal,
            second,
        ) is Ok,
    ensures
        ({
            let once = log_meal_outcome(state, user, first_meal, first)->Ok_0;
            let twice = log_meal_outcome(once, user, second_meal, second)->Ok_0;
            &&& first_meal != second_meal
            &&& twice.today_meals.has(other) == (once.today_meals.has(other) || other
                == second_meal)
            &&& twice.today_meals.has(first_meal)
            &&& twice.current_streak == once.current_streak
            &&& twice.longest_streak == once.longest_streak
        }),
{
}

/// A complete day followed by a meal on the very next day extends the streak
/// by one, and the longest streak is the larger of what it was and the new
/// streak. The day that was completed must lie after day bucket 0: the
/// tracker takes a last meal in bucket 0 for no meal at all.
pub proof fn lemma_streak_grows_after_complete_day(
    state: TrackerState,
    user: Seq<u8>,
    meal: MealType,
    now: i64,
)
    requires
        state.today_meals.complete(),
        day_index(state.last_meal_date) > 0,
        day_index(now as int) == day_index(state.last_meal_date) + 1,
        state.owner == user,
        in_meal_window(now as int, meal),
    ensures
        log_meal_outcome(state, user, meal, now) is Ok,
        ({
            let next = log_meal_outcome(state, user, meal, now)->Ok_0;
            &&& next.current_streak == state.current_streak + 1
            &&& next.longest_streak == if state.longest_streak >= next.current_streak {
                state.longest_streak
            } else {
                next.current_streak
            }
            &&& next.longest_streak >= next.current_streak
        }),
{
}

/// A meal logged two or more days after the last one, or on a later day when
/// the last day was left incomplete, resets the streak to zero and leaves the
/// longest streak as it was. The last meal must lie after day bucket 0.
pub proof fn lemma_streak_resets_after_gap_or_incomplete_day(
    state: TrackerState,
    user: Seq<u8>,
    meal: MealType,
    now: i64,
)
    requires
        day_index(state.last_meal_date) > 0,
        day_index(now as int) > day_index(state.last_meal_date),
        day_index(now as int) - day_index(state.last_meal_date) >= 2
            || !state.today_meals.complete(),
        state.owner == user,
        in_meal_window(now as int, meal),
    ensures
        log_meal_outcome(state, user, meal, now) is Ok,
        ({
            let next = log_meal_outcome(state, user, meal, now)->Ok_0;
            &&& next.current_streak == 0
            &&& next.longest_streak == state.longest_streak
        }),
{
}

/// The first meal of a tracker, and any meal that follows a last meal in day
/// bucket 0, leaves both streaks alone.
pub proof fn lemma_no_previous_day_leaves_streak(
    state: TrackerState,
    user: Seq<u8>,
    meal: MealType,
    now: i64,
)
    requires
        day_index(state.last_meal_date) <= 0,
        log_meal_outcome(state, user, meal, now) is Ok,
    ensures
        ({
            let next = log_meal_outcome(state, user, meal, now)->Ok_0;
            &&& next.current_streak == state.current_streak
            &&& next.longest_streak == state.longest_streak
        }),
{
}

/// The points of one logged meal, exactly: 10 for the meal, 50 more if it
/// completes the day, and the milestone bonus of the new streak if and only
/// if this call extended the streak. The call extends the streak exactly when
/// the streak is afterwards one more than before; so a bonus is awarded at
/// the moment the streak reaches 7, 30 or 100, never again while the streak
/// stays there, and once more each time it is rebuilt to that length.
pub proof fn lemma_points_of_one_log(
    state: TrackerState,
    user: Seq<u8>,
    meal: MealType,
    now: i64,
)
    requires
        log_meal_outcome(state, user, meal, now) is Ok,
    ensures
        ({
            let next = log_meal_outcome(state, user, meal, now)->Ok_0;
            let completion: nat = if next.today_meals.complete() {
                50
            } else {
                0
            };
            let milestone: nat = if state.extends_streak(now) {
                milestone_bonus(next.current_streak)
            } else {
                0
            };
            &&& next.total_points == state.total_points + 10 + completion + milestone
            &&& state.extends_streak(now) <==> next.current_streak == state.current_streak + 1
            &&& state.extends_streak(now) ==> !next.today_meals.complete()
            &&& next.total_points <= state.total_points + MAX_AWARD
        }),
{
}

/// A tracker whose streak is below the largest `u32` and whose points leave
/// room for [`MAX_AWARD`] more can take any meal at any time: whatever is
/// logged, the counters afterwards fit their machine types.
pub proof fn lemma_room_for_one_log(state: TrackerState, user: Seq<u8>, meal: MealType, now: i64)
    requires
        state.fits(),
        state.current_streak < u32::MAX,
        state.total_points + MAX_AWARD <= u64::MAX,
    ensures
        state.advanced(now).fits(),
        log_meal_outcome(state, user, meal, now) matches Ok(next) ==> next.fits(),
{
}

/// While the streak stays where it is, no milestone bonus is awarded: the
/// call adds 10 points, or 60 where it completes the day.
pub proof fn lemma_no_bonus_while_streak_stays(
    state: TrackerState,
    user: Seq<u8>,
    meal: MealType,
    now: i64,
)
    requires
        log_meal_outcome(state, user, meal, now) is Ok,
        log_meal_outcome(state, user, meal, now)->Ok_0.current_streak != state.current_streak + 1,
    ensures
        ({
            let next = log_meal_outcome(state, user, meal, now)->Ok_0;
            next.total_points == state.total_points + if next.today_meals.complete() {
                60nat
            } else {
                10nat
            }
        }),
{
}

/// The milestone table: a bonus at 7, 30 and 100 days, and at no other
/// length of the streak.
pub proof fn lemma_milestone_table(streak: nat)
    ensures
        milestone_bonus(7) == 100,
        milestone_bonus(30) == 500,
        milestone_bonus(100) == 2000,
        streak != 7 && streak != 30 && streak != 100 ==> milestone_bonus(streak) == 0,
{
}

/// The windows are half-open and do not overlap: hour 11 is lunch and not
/// breakfast, hour 16 is dinner and not lunch, the hours from 23 through 4
/// admit no meal, and no instant admits two meals.
pub proof fn lemma_windows_are_half_open(timestamp: int)
    requires
        has_hour(timestamp),
    ensures
        0 <= hour_of_day(timestamp) < 24,
        in_meal_window(timestamp, MealType::Breakfast) <==> 5 <= hour_of_day(timestamp) < 11,
        in_meal_window(timestamp, MealType::Lunch) <==> 11 <= hour_of_day(timestamp) < 16,
        in_meal_window(timestamp, MealType::Dinner) <==> 16 <= hour_of_day(timestamp) < 23,
        hour_of_day(timestamp) == 11 ==> in_meal_window(timestamp, MealType::Lunch)
            && !in_meal_window(timestamp, MealType::Breakfast),
        hour_of_day(timestamp) == 16 ==> in_meal_window(timestamp, MealType::Dinner)
            && !in_meal_window(timestamp, MealType::Lunch),
        hour_of_day(timestamp) >= 23 || hour_of_day(timestamp) < 5 ==> forall|meal: MealType|
            !in_meal_window(timestamp, meal),
        forall|one: MealType, other: MealType|
            in_meal_window(timestamp, one) && in_meal_window(timestamp, other) ==> one == other,
{
}

/// An instant before the epoch admits no meal.
pub proof fn lemma_no_meal_before_epoch(timestamp: int, meal: MealType)
    requires
        timestamp < 0,
    ensures
        !in_meal_window(timestamp, meal),
{
}

/// A refused meal changes nothing: the outcome is an error exactly when the
/// caller is not the owner, the time is outside the window, or the meal is
/// already logged for the day; and an accepted meal is afterwards logged,
/// at `now`, which is then the time of the last meal.
pub proof fn lemma_outcome_cases(state: TrackerState, user: Seq<u8>, meal: MealType, now: i64)
    ensures
        log_meal_outcome(state, user, meal, now) == Err::<TrackerState, FoodTrackerError>(
            FoodTrackerError::Unauthorized,
        ) <==> state.owner != user,
        log_meal_outcome(state, user, meal, now) == Err::<TrackerState, FoodTrackerError>(
            FoodTrackerError::InvalidMealTime,
        ) <==> state.owner == user && !in_meal_window(now as int, meal),
        log_meal_outcome(state, user, meal, now) == Err::<TrackerState, FoodTrackerError>(
            FoodTrackerError::MealAlreadyLogged,
        ) <==> state.owner == user && in_meal_window(now as int, meal) && !state.rolls_over(now)
            && state.today_meals.has(meal),
        log_meal_outcome(state, user, meal, now) matches Ok(next) ==> {
            &&& next.today_meals.has(meal)
            &&& next.today_meals.logged_at(meal) == Some(now)
            &&& next.last_meal_date == now
            &&& next.owner == state.owner
            &&& next.bump == state.bump
            &&& next.total_points > state.total_points
        },
{
}

/// A meal that was logged on an earlier day can be logged again today: after
/// a rollover no meal is refused as already logged.
pub proof fn lemma_new_day_accepts_every_meal(
    state: TrackerState,
    user: Seq<u8>,
    meal: MealType,
    now: i64,
)
    requires
        state.rolls_over(now),
        state.owner == user,
        in_meal_window(now as int, meal),
    ensures
        log_meal_outcome(state, user, meal, now) is Ok,
        log_meal_outcome(state, user, meal, now)->Ok_0.today_meals == MealStatus::empty().with_meal(
            meal,
            now,
        ),
{
}

/// Every state that a logged meal or a rollover leads to from a well-formed
/// state is well-formed: in particular the longest streak never falls below
/// the current one.
pub proof fn lemma_well_formed_is_kept(
    state: TrackerState,
    user: Seq<u8>,
    meal: MealType,
    now: i64,
)
    requires
        state.well_formed(),
    ensures
        state.advanced(now).well_formed(),
        log_meal_outcome(state, user, meal, now) matches Ok(next) ==> next.well_formed(),
        TrackerState::fresh(user, state.bump).well_formed(),
{
}

} // verus!
