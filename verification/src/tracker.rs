//! The tracker of one user and the operations on it: creation, the day
//! rollover, the logging of a meal, and the read-only statistics.

use vstd::prelude::*;
use crate::calendar::{day_index, day_of};
use crate::error::FoodTrackerError;
use crate::meal::{in_meal_window, validate_meal_time, MealStatus, MealType};

verus! {

/// Points for each logged meal.
pub const MEAL_POINTS: u64 = 10;

/// Points for the meal that completes the day.
pub const COMPLETION_BONUS: u64 = 50;

/// The most that a single logged meal can add to the points of a tracker.
pub const MAX_AWARD: u64 = 2010;

/// The points awarded when a streak reaches `streak` days: 100 at 7 days,
/// 500 at 30, 2000 at 100, and nothing at any other length.
pub open spec fn milestone_bonus(streak: nat) -> nat {
    if streak == 7 {
        100
    } else if streak == 30 {
        500
    } else if streak == 100 {
        2000
    } else {
        0
    }
}

/// The points awarded when a streak reaches `streak` days.
pub fn streak_bonus(streak: u32) -> (bonus: u64)
    ensures
        bonus == milestone_bonus(streak as nat),
{
    match streak {
        7 => 100,
        30 => 500,
        100 => 2000,
        _ => 0,
    }
}

/// The persisted state of one user.
#[derive(Clone, Copy, Debug, PartialEq, Eq)]
pub struct FoodTrackerAccount {
    /// The identity that the tracker was created for.
    pub owner: [u8; 32],
    /// Consecutive complete days up to the last rollover.
    pub current_streak: u32,
    /// The longest streak ever reached.
    pub longest_streak: u32,
    /// All points awarded so far.
    pub total_points: u64,
    /// The time of the last logged meal, 0 before the first.
    pub last_meal_date: i64,
    /// What was logged in the current day bucket.
    pub today_meals: MealStatus,
    /// The address bump that the tracker was created with.
    pub bump: u8,
}

/// A tracker as a mathematical value: counters without a machine limit.
pub struct TrackerState {
    pub owner: Seq<u8>,
    pub current_streak: nat,
    pub longest_streak: nat,
    pub total_points: nat,
    pub last_meal_date: int,
    pub today_meals: MealStatus,
    pub bump: u8,
}

impl View for FoodTrackerAccount {
    type V = TrackerState;

    open spec fn view(&self) -> TrackerState {
        TrackerState {
            owner: self.owner@,
            current_streak: self.current_streak as nat,
            longest_streak: self.longest_streak as nat,
            total_points: self.total_points as nat,
            last_meal_date: self.last_meal_date as int,
            today_meals: self.today_meals,
            bump: self.bump,
        }
    }
}

impl TrackerState {
    /// The state of a tracker on which nothing was logged yet.
    pub open spec fn fresh(owner: Seq<u8>, bump: u8) -> TrackerState {
        TrackerState {
            owner,
            current_streak: 0,
            longest_streak: 0,
            total_points: 0,
            last_meal_date: 0,
            today_meals: MealStatus::empty(),
            bump,
        }
    }

    /// What holds of every tracker that was created by [`initialize`] and
    /// changed only by [`advance`] and [`log_meal`]: the longest streak is at
    /// least the current one, each meal has a time exactly when it is logged,
    /// the last meal is not before the epoch, and a tracker without a last
    /// meal has nothing logged and no points.
    pub open spec fn well_formed(self) -> bool {
        &&& self.current_streak <= self.longest_streak
        &&& self.today_meals.is_consistent()
        &&& self.last_meal_date >= 0
        &&& self.last_meal_date == 0 ==> {
            &&& self.today_meals == MealStatus::empty()
            &&& self.total_points == 0
            &&& self.longest_streak == 0
        }
    }

    /// The counters fit the machine types of [`FoodTrackerAccount`].
    pub open spec fn fits(self) -> bool {
        &&& self.current_streak <= u32::MAX
        &&& self.longest_streak <= u32::MAX
        &&& self.total_points <= u64::MAX
    }

    /// `now` lies in a later day bucket than the last logged meal.
    pub open spec fn rolls_over(self, now: i64) -> bool {
        day_index(now as int) > day_index(self.last_meal_date)
    }

    /// The last logged meal lies in a day bucket after bucket 0, so there is a
    /// previous day to judge. A tracker that never logged a meal has none.
    pub open spec fn has_previous_day(self) -> bool {
        day_index(self.last_meal_date) > 0
    }

    /// The rollover at `now` extends the streak: the previous day is complete
    /// and `now` lies in the very next day bucket.
    pub open spec fn extends_streak(self, now: i64) -> bool {
        &&& self.rolls_over(now)
        &&& self.has_previous_day()
        &&& self.today_meals.complete()
        &&& day_index(now as int) - day_index(self.last_meal_date) == 1
    }

    /// The rollover at `now` breaks the streak: a day was skipped, or the
    /// previous day is not complete.
    pub open spec fn breaks_streak(self, now: i64) -> bool {
        &&& self.rolls_over(now)
        &&& self.has_previous_day()
        &&& !self.extends_streak(now)
    }

    /// The state after the day rollover at `now`.
    ///
    /// Within the day bucket of the last meal, or before it, nothing changes.
    /// In a later bucket the meals of the day are cleared, and the streak is
    /// extended by one (with its milestone bonus), reset to zero, or, where
    /// there is no previous day, left alone.
    pub open spec fn advanced(self, now: i64) -> TrackerState {
        if !self.rolls_over(now) {
            self
        } else if self.extends_streak(now) {
            let streak = self.current_streak + 1;
            TrackerState {
                current_streak: streak,
                longest_streak: if streak > self.longest_streak {
                    streak
                } else {
                    self.longest_streak
                },
                total_points: self.total_points + milestone_bonus(streak),
                today_meals: MealStatus::empty(),
                ..self
            }
        } else if self.breaks_streak(now) {
            TrackerState { current_streak: 0, today_meals: MealStatus::empty(), ..self }
        } else {
            TrackerState { today_meals: MealStatus::empty(), ..self }
        }
    }

    /// The state after `meal` is recorded at `now`, with no rollover: the meal
    /// is flagged and timed, 10 points are added, 50 more if the day is
    /// thereby complete, and `now` becomes the time of the last meal.
    pub open spec fn with_logged(self, meal: MealType, now: i64) -> TrackerState {
        let today = self.today_meals.with_meal(meal, now);
        TrackerState {
            today_meals: today,
            total_points: self.total_points + MEAL_POINTS as nat + if today.complete() {
                COMPLETION_BONUS as nat
            } else {
                0
            },
            last_meal_date: now as int,
            ..self
        }
    }
}

/// What logging `meal` at `now` does to `state` on behalf of `user`.
///
/// The checks come in this order, and the first that fails decides:
/// `user` must own the tracker, `now` must lie in the window of `meal`, and
/// `meal` must not be logged yet in the day bucket of `now`, that is after the
/// rollover. Where all pass, the result is the state after the rollover and
/// the recording.
pub open spec fn log_meal_outcome(
    state: TrackerState,
    user: Seq<u8>,
    meal: MealType,
    now: i64,
) -> Result<TrackerState, FoodTrackerError> {
    if state.owner != user {
        Err(FoodTrackerError::Unauthorized)
    } else if !in_meal_window(now as int, meal) {
        Err(FoodTrackerError::InvalidMealTime)
    } else if state.advanced(now).today_meals.has(meal) {
        Err(FoodTrackerError::MealAlreadyLogged)
    } else {
        Ok(state.advanced(now).with_logged(meal, now))
    }
}

/// Whether two identities are the same, byte for byte.
pub fn same_identity(a: &[u8; 32], b: &[u8; 32]) -> (same: bool)
    ensures
        same == (a@ == b@),
{
    let mut i: usize = 0;
    while i < 32
        invariant
            i <= 32,
            forall|j: int| 0 <= j < i ==> a@[j] == b@[j],
        decreases 32 - i,
    {
        if a[i] != b[i] {
            return false;
        }
        i = i + 1;
    }
    assert(a@ =~= b@);
    true
}

impl FoodTrackerAccount {
    /// Whether the rollover at `now` keeps the streak and the points within
    /// their machine types: the test to make before [`advance`].
    pub fn can_advance(&self, now: i64) -> (fits: bool)
        ensures
            fits == self@.advanced(now).fits(),
    {
        let current_day: i64 = day_of(now);
        let last_day: i64 = day_of(self.last_meal_date);
        if current_day > last_day && last_day > 0 && self.today_meals.is_complete() && current_day
            - last_day == 1 {
            self.current_streak < u32::MAX && self.total_points <= u64::MAX - streak_bonus(
                self.current_streak + 1,
            )
        } else {
            true
        }
    }

    /// Whether logging `meal_type` at `now` on behalf of `user` keeps the
    /// streak and the points within their machine types: the test to make
    /// before [`log_meal`]. A meal that would be refused changes nothing, and
    /// so always passes.
    pub fn can_log(&self, user: &[u8; 32], meal_type: MealType, now: i64) -> (fits: bool)
        ensures
            fits == (log_meal_outcome(self@, user@, meal_type, now) matches Ok(next)
                ==> next.fits()),
    {
        if !same_identity(&self.owner, user) || !validate_meal_time(now, &meal_type) {
            return true;
        }
        let starts_new_day: bool = day_of(now) > day_of(self.last_meal_date);
        if !starts_new_day && self.today_meals.is_logged(meal_type) {
            return true;
        }
        if !self.can_advance(now) {
            return false;
        }
        let mut after: FoodTrackerAccount = *self;
        advance(&mut after, now);
        after.today_meals.record(meal_type, now);
        let award: u64 = if after.today_meals.is_complete() {
            MEAL_POINTS + COMPLETION_BONUS
        } else {
            MEAL_POINTS
        };
        after.total_points <= u64::MAX - award
    }
}

/// Creates the tracker of `owner`: no streak, no points, no meal logged.
pub fn initialize(owner: [u8; 32], bump: u8) -> (tracker: FoodTrackerAccount)
    ensures
        tracker@ == TrackerState::fresh(owner@, bump),
        tracker.owner == owner,
        tracker@.well_formed(),
{
    FoodTrackerAccount {
        owner,
        current_streak: 0,
        longest_streak: 0,
        total_points: 0,
        last_meal_date: 0,
        today_meals: MealStatus::default(),
        bump,
    }
}

/// Applies the day rollover at `now`.
///
/// The precondition is the machine's: the streak and the points after the
/// rollover must fit their types.
pub fn advance(tracker: &mut FoodTrackerAccount, now: i64)
    requires
        old(tracker)@.advanced(now).fits(),
    ensures
        final(tracker)@ == old(tracker)@.advanced(now),
        final(tracker).owner == old(tracker).owner,
        old(tracker)@.well_formed() ==> final(tracker)@.well_formed(),
{
    let current_day: i64 = day_of(now);
    let last_day: i64 = day_of(tracker.last_meal_date);
    if current_day > last_day {
        if last_day > 0 {
            if tracker.today_meals.is_complete() && current_day - last_day == 1 {
                tracker.current_streak = tracker.current_streak + 1;
                tracker.total_points = tracker.total_points + streak_bonus(tracker.current_streak);
                if tracker.current_streak > tracker.longest_streak {
                    tracker.longest_streak = tracker.current_streak;
                }
            } else {
                tracker.current_streak = 0;
            }
        }
        tracker.today_meals = MealStatus::default();
    }
}

/// Logs `meal_type` at `now` on behalf of `user`.
///
/// The call either does all of its work or none: on an error the tracker is
/// left as it was. Which of the two happens, and what the tracker then holds,
/// is [`log_meal_outcome`].
///
/// The precondition is the machine's: where the meal is accepted, the streak
/// and the points after it must fit their types. Test it with
/// [`FoodTrackerAccount::can_log`], or call [`try_log_meal`], which does.
pub fn log_meal(
    tracker: &mut FoodTrackerAccount,
    user: &[u8; 32],
    meal_type: MealType,
    now: i64,
) -> (result: Result<(), FoodTrackerError>)
    requires
        log_meal_outcome(old(tracker)@, user@, meal_type, now) matches Ok(next) ==> next.fits(),
    ensures
        match log_meal_outcome(old(tracker)@, user@, meal_type, now) {
            Ok(next) => {
                &&& result == Ok::<(), FoodTrackerError>(())
                &&& final(tracker)@ == next
                &&& final(tracker).owner == old(tracker).owner
            },
            Err(reason) => {
                &&& result == Err::<(), FoodTrackerError>(reason)
                &&& *final(tracker) == *old(tracker)
            },
        },
        old(tracker)@.well_formed() ==> final(tracker)@.well_formed(),
        final(tracker).total_points >= old(tracker).total_points,
{
    if !same_identity(&tracker.owner, user) {
        return Err(FoodTrackerError::Unauthorized);
    }
    if !validate_meal_time(now, &meal_type) {
        return Err(FoodTrackerError::InvalidMealTime);
    }
    let starts_new_day: bool = day_of(now) > day_of(tracker.last_meal_date);
    if !starts_new_day && tracker.today_meals.is_logged(meal_type) {
        return Err(FoodTrackerError::MealAlreadyLogged);
    }
    advance(tracker, now);
    tracker.today_meals.record(meal_type, now);
    tracker.total_points = tracker.total_points + MEAL_POINTS;
    tracker.last_meal_date = now;
    if tracker.today_meals.is_complete() {
        tracker.total_points = tracker.total_points + COMPLETION_BONUS;
    }
    Ok(())
}

/// Logs `meal_type` at `now` on behalf of `user`, for any tracker.
///
/// `None` says that the meal would be accepted but the streak or the points
/// would leave their machine types; the tracker is then left as it was.
/// Otherwise the result is that of [`log_meal`].
pub fn try_log_meal(
    tracker: &mut FoodTrackerAccount,
    user: &[u8; 32],
    meal_type: MealType,
    now: i64,
) -> (result: Option<Result<(), FoodTrackerError>>)
    ensures
        match log_meal_outcome(old(tracker)@, user@, meal_type, now) {
            Ok(next) => if next.fits() {
                &&& result == Some(Ok::<(), FoodTrackerError>(()))
                &&& final(tracker)@ == next
                &&& final(tracker).owner == old(tracker).owner
            } else {
                result is None && *final(tracker) == *old(tracker)
            },
            Err(reason) => {
                &&& result == Some(Err::<(), FoodTrackerError>(reason))
                &&& *final(tracker) == *old(tracker)
            },
        },
        old(tracker)@.well_formed() ==> final(tracker)@.well_formed(),
        final(tracker).total_points >= old(tracker).total_points,
{
    if !tracker.can_log(user, meal_type, now) {
        return None;
    }
    Some(log_meal(tracker, user, meal_type, now))
}

/// What a tracker reports of itself.
#[derive(Clone, Copy, Debug, PartialEq, Eq)]
pub struct TrackerStats {
    pub total_points: u64,
    pub current_streak: u32,
    pub longest_streak: u32,
    pub today_meals: MealStatus,
}

/// Reads the statistics of `tracker` as they stand. No rollover is applied:
/// a streak that the next logged meal will reset is still reported.
pub fn get_stats(tracker: &FoodTrackerAccount) -> (stats: TrackerStats)
    ensures
        stats.total_points == tracker.total_points,
        stats.current_streak == tracker.current_streak,
        stats.longest_streak == tracker.longest_streak,
        stats.today_meals == tracker.today_meals,
{
    TrackerStats {
        total_points: tracker.total_points,
        current_streak: tracker.current_streak,
        longest_streak: tracker.longest_streak,
        today_meals: tracker.today_meals,
    }
}

} // verus!
