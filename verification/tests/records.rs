use food_intake_tracker::{
    get_stats, initialize, log_meal, FoodTrackerAccount, MealStatus, MealType, TrackerStats,
    COMPLETION_BONUS, MEAL_POINTS, SECONDS_PER_DAY, SECONDS_PER_HOUR,
};

const OWNER: [u8; 32] = [9u8; 32];

#[test]
fn new_tracker_is_all_zero() {
    let tracker = initialize(OWNER, 17);
    assert_eq!(
        tracker,
        FoodTrackerAccount {
            owner: OWNER,
            current_streak: 0,
            longest_streak: 0,
            total_points: 0,
            last_meal_date: 0,
            today_meals: MealStatus {
                breakfast: false,
                lunch: false,
                dinner: false,
                timestamp_breakfast: None,
                timestamp_lunch: None,
                timestamp_dinner: None,
            },
            bump: 17,
        }
    );
}

#[test]
fn default_status_has_nothing_logged() {
    let status = MealStatus::default();
    assert!(!status.breakfast && !status.lunch && !status.dinner);
    assert_eq!(status.timestamp_breakfast, None);
    assert_eq!(status.timestamp_lunch, None);
    assert_eq!(status.timestamp_dinner, None);
    assert!(!status.is_complete());
    for meal in [MealType::Breakfast, MealType::Lunch, MealType::Dinner] {
        assert!(!status.is_logged(meal));
    }
}

#[test]
fn status_is_complete_with_all_three_flags_only() {
    for bits in 0..8u8 {
        let status = MealStatus {
            breakfast: bits & 1 != 0,
            lunch: bits & 2 != 0,
            dinner: bits & 4 != 0,
            timestamp_breakfast: None,
            timestamp_lunch: None,
            timestamp_dinner: None,
        };
        assert_eq!(status.is_complete(), bits == 7);
        assert_eq!(status.is_logged(MealType::Breakfast), bits & 1 != 0);
        assert_eq!(status.is_logged(MealType::Lunch), bits & 2 != 0);
        assert_eq!(status.is_logged(MealType::Dinner), bits & 4 != 0);
    }
}

#[test]
fn record_sets_one_flag_and_its_time() {
    let mut status = MealStatus::default();
    status.record(MealType::Lunch, 1234);
    assert_eq!(
        status,
        MealStatus {
            breakfast: false,
            lunch: true,
            dinner: false,
            timestamp_breakfast: None,
            timestamp_lunch: Some(1234),
            timestamp_dinner: None,
        }
    );
    status.record(MealType::Dinner, -7);
    status.record(MealType::Breakfast, 99);
    assert_eq!(
        status,
        MealStatus {
            breakfast: true,
            lunch: true,
            dinner: true,
            timestamp_breakfast: Some(99),
            timestamp_lunch: Some(1234),
            timestamp_dinner: Some(-7),
        }
    );
    assert!(status.is_complete());
}

#[test]
fn statistics_are_read_without_rollover() {
    let mut tracker = initialize(OWNER, 0);
    assert_eq!(
        get_stats(&tracker),
        TrackerStats {
            total_points: 0,
            current_streak: 0,
            longest_streak: 0,
            today_meals: MealStatus::default(),
        }
    );
    assert_eq!(log_meal(&mut tracker, &OWNER, MealType::Dinner, 5 * 86400 + 17 * 3600), Ok(()));
    let before = tracker;
    let stats = get_stats(&tracker);
    assert_eq!(tracker, before);
    assert_eq!(stats.total_points, 10);
    assert_eq!(stats.current_streak, 0);
    assert_eq!(stats.longest_streak, 0);
    assert!(stats.today_meals.dinner);
    assert_eq!(stats.today_meals.timestamp_dinner, Some(5 * 86400 + 17 * 3600));
}

#[test]
fn constants_of_the_rules() {
    assert_eq!(SECONDS_PER_DAY, 86400);
    assert_eq!(SECONDS_PER_HOUR, 3600);
    assert_eq!(MEAL_POINTS, 10);
    assert_eq!(COMPLETION_BONUS, 50);
}

#[test]
fn points_never_decrease_and_longest_covers_current() {
    let mut tracker = initialize(OWNER, 0);
    let mut points = 0u64;
    let meals = [MealType::Breakfast, MealType::Lunch, MealType::Dinner];
    let hours = [6i64, 12, 18];
    // Days 20..60, skipping every fifth day and the dinner of every seventh.
    for day in 20..60i64 {
        if day % 5 == 0 {
            continue;
        }
        for slot in 0..3 {
            if slot == 2 && day % 7 == 0 {
                continue;
            }
            let now = day * 86400 + hours[slot] * 3600;
            assert_eq!(log_meal(&mut tracker, &OWNER, meals[slot], now), Ok(()));
            assert!(tracker.total_points > points);
            assert!(tracker.total_points - points <= 2010);
            points = tracker.total_points;
            assert!(tracker.longest_streak >= tracker.current_streak);
            assert_eq!(tracker.last_meal_date, now);
        }
    }
    assert_eq!(tracker.longest_streak, 3);
}
