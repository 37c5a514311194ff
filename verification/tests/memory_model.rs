use gapfinder::fixed::{floor_div, multiply, product, round_div, saturate, UNIT};
use gapfinder::fsrs::{
    rating_for, FSRSParameters, FSRSScheduler, MAX_DIFFICULTY, MIN_DIFFICULTY,
    MIN_INITIAL_STABILITY, MIN_RETRIEVABILITY, WEIGHT_LIMIT,
};
use gapfinder::models::{Attempt, ReviewState, SirPhase};

fn attempt_with(state: ReviewState) -> Attempt {
    Attempt {
        id: "a".to_string(),
        item_id: "i".to_string(),
        session_id: Some("s".to_string()),
        user_answer: "answer".to_string(),
        is_correct: true,
        confidence: 4,
        time_spent_ms: 900,
        attempted_at: 77,
        sir_phase: SirPhase::MediumSpacing,
        next_review_date: 99,
        metacognitive: None,
        stability: 3_000_000,
        difficulty: 5_000_000,
        elapsed_days: 0,
        scheduled_days: 0,
        review_state: state,
    }
}

fn decay_of(stability: i64) -> i64 {
    ((-(stability as f64 / 1e6)).exp() * 1e6).round() as i64
}

fn in_units(micros: i64) -> f64 {
    micros as f64 / 1e6
}

/// The updates in floating point, with the standard weights.
fn floating_next_difficulty(difficulty: f64, rating: i32) -> f64 {
    let next = difficulty - 0.86 * (rating - 3) as f64;
    (0.01 * 4.93 + (1.0 - 0.01) * next).clamp(1.0, 10.0)
}

fn floating_forgetting_curve(elapsed_days: i32, stability: f64) -> f64 {
    (1.0 + elapsed_days as f64 / (9.0 * stability)).powf(-1.0).max(0.01)
}

fn floating_recall_stability(difficulty: f64, stability: f64, recalled: f64, rating: i32) -> f64 {
    let hard_penalty = if rating == 2 { 0.29 } else { 1.0 };
    let easy_bonus = if rating == 4 { 2.61 } else { 1.0 };
    stability
        * (1.0 + (-stability).exp() * 1.49 + (11.0 - difficulty) * 0.14 + recalled * 0.94)
        * hard_penalty
        * easy_bonus
}

#[test]
fn standard_parameters() {
    let params = FSRSParameters::default();
    assert_eq!(
        params.w,
        [
            400_000, 600_000, 2_400_000, 5_800_000, 4_930_000, 940_000, 860_000, 10_000,
            1_490_000, 140_000, 940_000, 2_180_000, 50_000, 340_000, 1_260_000, 290_000,
            2_610_000
        ]
    );
    assert_eq!(params.request_retention, 900_000);
    assert_eq!(params.retention_factor, -847_997);
    assert_eq!(params.maximum_interval, 36_500);
    assert!(params.is_well_formed());
    let scheduler = FSRSScheduler::default();
    assert_eq!(scheduler.params.w, params.w);
    assert_eq!(scheduler.params.retention_factor, -847_997);
    assert_eq!(scheduler.params.maximum_interval, 36_500);
}

#[test]
fn standard_retention_factor_belongs_to_the_standard_retention() {
    let factor = 0.9f64.ln() / 0.5f64.ln() - 1.0;
    assert_eq!((factor * 1e6).round() as i64, FSRSParameters::default().retention_factor);
}

#[test]
fn configurations_that_are_not_well_formed() {
    let mut heavy = FSRSParameters::default();
    heavy.w[9] = WEIGHT_LIMIT + 1;
    assert!(!heavy.is_well_formed());
    heavy.w[9] = WEIGHT_LIMIT;
    assert!(heavy.is_well_formed());
    heavy.w[0] = -WEIGHT_LIMIT - 1;
    assert!(!heavy.is_well_formed());
    let mut undivided = FSRSParameters::default();
    undivided.w[16] = 0;
    assert!(undivided.is_well_formed());
    let mut short = FSRSParameters::default();
    short.maximum_interval = 0;
    assert!(!short.is_well_formed());
    short.maximum_interval = 1;
    assert!(short.is_well_formed());
}

#[test]
fn rating_of_an_answer() {
    assert_eq!(rating_for(false, 5), 1);
    assert_eq!(rating_for(false, 1), 1);
    assert_eq!(rating_for(true, 1), 2);
    assert_eq!(rating_for(true, 2), 2);
    assert_eq!(rating_for(true, 3), 3);
    assert_eq!(rating_for(true, 4), 4);
    assert_eq!(rating_for(true, 5), 4);
    assert_eq!(rating_for(true, i32::MIN), 2);
    assert_eq!(rating_for(true, i32::MAX), 4);
}

#[test]
fn whole_quotients() {
    assert_eq!(floor_div(7, 2), 3);
    assert_eq!(floor_div(-7, 2), -4);
    assert_eq!(floor_div(7, -2), -4);
    assert_eq!(floor_div(-7, -2), 3);
    assert_eq!(floor_div(-8, 2), -4);
    assert_eq!(floor_div(0, -5), 0);
    assert_eq!(round_div(7, 2), 4);
    assert_eq!(round_div(-7, 2), -4);
    assert_eq!(round_div(7, -2), -4);
    assert_eq!(round_div(-7, -2), 4);
    assert_eq!(round_div(5, 4), 1);
    assert_eq!(round_div(-5, 4), -1);
    assert_eq!(round_div(6, 4), 2);
    assert_eq!(round_div(-6, 4), -2);
    assert_eq!(round_div(0, 3), 0);
    assert_eq!(round_div(1, 3), 0);
    assert_eq!(round_div(2, 3), 1);
}

#[test]
fn products_in_millionths() {
    assert_eq!(UNIT, 1_000_000);
    assert_eq!(product(i64::MIN, i64::MIN), 1i128 << 126);
    assert_eq!(product(-3, 4), -12);
    assert_eq!(saturate(i128::MAX), i64::MAX);
    assert_eq!(saturate(i128::MIN), i64::MIN);
    assert_eq!(saturate(-5), -5);
    assert_eq!(multiply(3_000_000, 2_500_000), 7_500_000);
    assert_eq!(multiply(3, 333_333), 0);
    assert_eq!(multiply(-3, 333_333), -1);
    assert_eq!(multiply(1_234_567, UNIT), 1_234_567);
    assert_eq!(multiply(i64::MIN, UNIT), i64::MIN);
    assert_eq!(multiply(i64::MAX, 2 * UNIT), i64::MAX);
    assert_eq!(multiply(i64::MAX, -2 * UNIT), i64::MIN);
}

#[test]
fn initial_stability_by_rating() {
    let scheduler = FSRSScheduler::default();
    assert_eq!(scheduler.init_stability(1), 400_000);
    assert_eq!(scheduler.init_stability(2), 600_000);
    assert_eq!(scheduler.init_stability(3), 2_400_000);
    assert_eq!(scheduler.init_stability(4), 5_800_000);
}

#[test]
fn initial_stability_is_never_under_a_tenth_of_a_day() {
    let mut params = FSRSParameters::default();
    params.w[0] = 99_999;
    params.w[1] = 0;
    params.w[2] = i64::MIN;
    params.w[3] = 100_000;
    let scheduler = FSRSScheduler::new(params);
    for rating in 1..=4 {
        assert_eq!(scheduler.init_stability(rating), MIN_INITIAL_STABILITY);
    }
}

#[test]
fn initial_difficulty_by_rating() {
    let scheduler = FSRSScheduler::default();
    assert_eq!(scheduler.init_difficulty(1), 6_810_000);
    assert_eq!(scheduler.init_difficulty(2), 5_870_000);
    assert_eq!(scheduler.init_difficulty(3), 4_930_000);
    assert_eq!(scheduler.init_difficulty(4), 3_990_000);
}

#[test]
fn initial_difficulty_stays_between_one_and_ten() {
    let mut steep = FSRSParameters::default();
    steep.w[5] = 6_000_000;
    let scheduler = FSRSScheduler::new(steep);
    assert_eq!(scheduler.init_difficulty(1), MAX_DIFFICULTY);
    assert_eq!(scheduler.init_difficulty(3), 4_930_000);
    assert_eq!(scheduler.init_difficulty(4), MIN_DIFFICULTY);
    let mut extreme = FSRSParameters::default();
    extreme.w[4] = i64::MIN;
    extreme.w[5] = i64::MAX;
    let scheduler = FSRSScheduler::new(extreme);
    assert_eq!(scheduler.init_difficulty(1), MAX_DIFFICULTY);
    assert_eq!(scheduler.init_difficulty(4), MIN_DIFFICULTY);
}

#[test]
fn next_difficulty_by_rating() {
    let scheduler = FSRSScheduler::default();
    assert_eq!(scheduler.next_difficulty(5_000_000, 1), 6_702_100);
    assert_eq!(scheduler.next_difficulty(5_000_000, 2), 5_850_700);
    assert_eq!(scheduler.next_difficulty(5_000_000, 3), 4_999_300);
    assert_eq!(scheduler.next_difficulty(5_000_000, 4), 4_147_900);
}

#[test]
fn next_difficulty_stays_between_one_and_ten() {
    let scheduler = FSRSScheduler::default();
    assert_eq!(scheduler.next_difficulty(10_000_000, 1), 10_000_000);
    assert_eq!(scheduler.next_difficulty(1_000_000, 4), 1_000_000);
    assert_eq!(scheduler.next_difficulty(i64::MAX, 3), 10_000_000);
    assert_eq!(scheduler.next_difficulty(i64::MIN, 3), 1_000_000);
    assert_eq!(scheduler.next_difficulty(0, 3), 1_000_000);
}

#[test]
fn next_difficulty_follows_the_real_numbers() {
    let scheduler = FSRSScheduler::default();
    for difficulty in [1_000_000, 2_345_678, 4_930_000, 7_777_777, 10_000_000] {
        for rating in 1..=4 {
            let fixed = in_units(scheduler.next_difficulty(difficulty, rating));
            let floating = floating_next_difficulty(in_units(difficulty), rating);
            assert!((fixed - floating).abs() < 2e-6, "{} against {}", fixed, floating);
        }
    }
}

#[test]
fn short_term_stability_by_rating() {
    let scheduler = FSRSScheduler::default();
    assert_eq!(scheduler.short_term_stability(3_000_000, 1), -3_540_000);
    assert_eq!(scheduler.short_term_stability(3_000_000, 2), 3_000_000);
    assert_eq!(scheduler.short_term_stability(3_000_000, 3), 9_540_000);
    assert_eq!(scheduler.short_term_stability(3_000_000, 4), 16_080_000);
    assert_eq!(scheduler.short_term_stability(0, 4), 0);
    assert_eq!(scheduler.short_term_stability(1, 3), 3);
    assert_eq!(scheduler.short_term_stability(i64::MAX, 4), i64::MAX);
    assert_eq!(scheduler.short_term_stability(i64::MAX, 1), i64::MIN);
}

#[test]
fn forgetting_curve_by_days_and_stability() {
    let scheduler = FSRSScheduler::default();
    assert_eq!(scheduler.forgetting_curve(0, 1_000_000), 1_000_000);
    assert_eq!(scheduler.forgetting_curve(9, 1_000_000), 500_000);
    assert_eq!(scheduler.forgetting_curve(1, 1_000_000), 900_000);
    assert_eq!(scheduler.forgetting_curve(3, 2_400_000), 878_048);
    assert_eq!(scheduler.forgetting_curve(100, 100_000), MIN_RETRIEVABILITY);
    assert_eq!(scheduler.forgetting_curve(i32::MAX, 1), MIN_RETRIEVABILITY);
}

#[test]
fn forgetting_curve_at_the_edges() {
    let scheduler = FSRSScheduler::default();
    assert_eq!(scheduler.forgetting_curve(0, 0), MIN_RETRIEVABILITY);
    assert_eq!(scheduler.forgetting_curve(5, 0), MIN_RETRIEVABILITY);
    assert_eq!(scheduler.forgetting_curve(9, -1_000_000), i64::MAX);
    assert_eq!(scheduler.forgetting_curve(3, -1_000_000), 1_500_000);
    assert_eq!(scheduler.forgetting_curve(18, -1_000_000), MIN_RETRIEVABILITY);
    assert_eq!(scheduler.forgetting_curve(-9, 2_000_000), 2_000_000);
    assert_eq!(scheduler.forgetting_curve(0, i64::MAX), 1_000_000);
    assert_eq!(scheduler.forgetting_curve(0, i64::MIN), 1_000_000);
}

#[test]
fn forgetting_curve_follows_the_real_numbers() {
    let scheduler = FSRSScheduler::default();
    for stability in [100_000, 400_000, 2_400_000, 5_800_000, 123_456_789] {
        for elapsed_days in [0, 1, 2, 7, 30, 365] {
            let fixed = in_units(scheduler.forgetting_curve(elapsed_days, stability));
            let floating = floating_forgetting_curve(elapsed_days, in_units(stability));
            assert!((fixed - floating).abs() < 2e-6, "{} against {}", fixed, floating);
        }
    }
}

#[test]
fn growth_under_review() {
    let scheduler = FSRSScheduler::default();
    assert_eq!(decay_of(3_000_000), 49_787);
    assert_eq!(scheduler.recall_growth(5_000_000, 1_000_000, 49_787), 2_854_182);
    assert_eq!(scheduler.recall_growth(11_000_000, 0, 0), 1_000_000);
    assert_eq!(scheduler.recall_growth(10_000_000, 10_000, 1_000_000), 2_639_400);
}

#[test]
fn recall_stability_by_rating() {
    let scheduler = FSRSScheduler::default();
    let next = |rating| {
        scheduler.next_recall_stability(5_000_000, 3_000_000, 1_000_000, 49_787, rating)
    };
    assert_eq!(next(1), 8_562_546);
    assert_eq!(next(2), 2_483_138);
    assert_eq!(next(3), 8_562_546);
    assert_eq!(next(4), 22_348_245);
}

#[test]
fn recall_stability_follows_the_real_numbers() {
    let scheduler = FSRSScheduler::default();
    for stability in [400_000, 2_400_000, 5_800_000, 40_000_000] {
        for difficulty in [1_000_000, 4_930_000, 10_000_000] {
            for elapsed_days in [0, 3, 40] {
                for rating in 1..=4 {
                    let recalled = scheduler.forgetting_curve(elapsed_days, stability);
                    let fixed = in_units(scheduler.next_recall_stability(
                        difficulty,
                        stability,
                        recalled,
                        decay_of(stability),
                        rating,
                    ));
                    let floating = floating_recall_stability(
                        in_units(difficulty),
                        in_units(stability),
                        floating_forgetting_curve(elapsed_days, in_units(stability)),
                        rating,
                    );
                    assert!(
                        (fixed - floating).abs() < 1e-5 * floating.abs().max(1.0),
                        "{} against {}",
                        fixed,
                        floating
                    );
                }
            }
        }
    }
}

#[test]
fn interval_by_stability() {
    let scheduler = FSRSScheduler::default();
    assert_eq!(scheduler.next_interval(400_000), 1);
    assert_eq!(scheduler.next_interval(2_400_000), 1);
    assert_eq!(scheduler.next_interval(i64::MAX), 1);
    assert_eq!(scheduler.next_interval(0), 1);
    assert_eq!(scheduler.next_interval(-3_540_000), 1);
    assert_eq!(scheduler.next_interval(-30_000_000), 10);
    assert_eq!(scheduler.next_interval(i64::MIN), 36_500);
}

#[test]
fn interval_is_rounded_to_the_nearest_day() {
    let mut params = FSRSParameters::default();
    params.retention_factor = 2_610_000;
    let scheduler = FSRSScheduler::new(params);
    assert_eq!(scheduler.next_interval(7_499_999), 7);
    assert_eq!(scheduler.next_interval(7_500_000), 8);
    assert_eq!(scheduler.next_interval(8_499_999), 8);
    assert_eq!(scheduler.next_interval(1_499_999), 1);
    assert_eq!(scheduler.next_interval(1_500_000), 2);
    assert_eq!(scheduler.next_interval(-7_500_000), 1);
    assert_eq!(scheduler.next_interval(36_500_499_999), 36_500);
    assert_eq!(scheduler.next_interval(36_499_499_999), 36_499);
    assert_eq!(scheduler.next_interval(i64::MAX), 36_500);
}

#[test]
fn interval_is_held_between_a_day_and_the_longest() {
    let mut params = FSRSParameters::default();
    params.retention_factor = 1_000_000;
    params.w[16] = 1_000_000;
    for longest in [1, 30, i32::MAX] {
        params.maximum_interval = longest;
        let scheduler = FSRSScheduler::new(params);
        for stability in [i64::MIN, -1, 0, 1, 29_000_000, 30_000_000, 31_000_000, i64::MAX] {
            let days = scheduler.next_interval(stability);
            assert!(days >= 1 && days <= longest);
        }
    }
    params.maximum_interval = 30;
    let scheduler = FSRSScheduler::new(params);
    assert_eq!(scheduler.next_interval(29_000_000), 29);
    assert_eq!(scheduler.next_interval(31_000_000), 30);
}

#[test]
fn interval_where_the_last_weight_is_nothing() {
    let mut params = FSRSParameters::default();
    params.w[16] = 0;
    let scheduler = FSRSScheduler::new(params);
    assert_eq!(scheduler.next_interval(2_400_000), 1);
    assert_eq!(scheduler.next_interval(0), 1);
    assert_eq!(scheduler.next_interval(-2_400_000), 36_500);
    assert_eq!(scheduler.next_interval(-1), 36_500);
    params.retention_factor = 0;
    let scheduler = FSRSScheduler::new(params);
    assert_eq!(scheduler.next_interval(-2_400_000), 1);
    assert_eq!(scheduler.next_interval(2_400_000), 1);
}

#[test]
fn interval_with_a_negative_divisor() {
    let mut params = FSRSParameters::default();
    params.w[16] = -2_610_000;
    let scheduler = FSRSScheduler::new(params);
    assert!(params.is_well_formed());
    assert_eq!(scheduler.next_interval(30_000_000), 10);
    assert_eq!(scheduler.next_interval(-30_000_000), 1);
}

#[test]
fn new_item_is_bounded_for_every_rating() {
    let scheduler = FSRSScheduler::default();
    for rating in 1..=4 {
        let mut attempt = attempt_with(ReviewState::New);
        scheduler.schedule(&mut attempt, rating, 0);
        assert!(attempt.difficulty >= 1_000_000 && attempt.difficulty <= 10_000_000);
        assert!(attempt.stability >= 100_000);
        assert_eq!(attempt.difficulty, scheduler.init_difficulty(rating));
        assert_eq!(attempt.stability, scheduler.init_stability(rating));
        assert_eq!(attempt.scheduled_days, 1);
    }
}

#[test]
fn better_rating_never_leaves_less_stability() {
    let scheduler = FSRSScheduler::default();
    for state in [ReviewState::New, ReviewState::Learning, ReviewState::Relearning] {
        let mut last = i64::MIN;
        for rating in 1..=4 {
            let mut attempt = attempt_with(state);
            let decay = decay_of(attempt.stability);
            scheduler.schedule(&mut attempt, rating, decay);
            assert!(attempt.stability >= last);
            last = attempt.stability;
        }
    }
    let mut last = i64::MIN;
    for rating in 2..=4 {
        let mut attempt = attempt_with(ReviewState::Review);
        let decay = decay_of(attempt.stability);
        scheduler.schedule(&mut attempt, rating, decay);
        assert!(attempt.stability >= last);
        last = attempt.stability;
    }
}

#[test]
fn hard_answer_under_review_leaves_less_stability_than_a_wrong_one() {
    let scheduler = FSRSScheduler::default();
    let mut wrong = attempt_with(ReviewState::Review);
    scheduler.schedule(&mut wrong, 1, 49_787);
    let mut hard = attempt_with(ReviewState::Review);
    scheduler.schedule(&mut hard, 2, 49_787);
    assert_eq!(wrong.stability, 8_562_546);
    assert_eq!(hard.stability, 2_483_138);
}

#[test]
fn new_item_moves_on_by_rating() {
    let scheduler = FSRSScheduler::default();
    let mut wrong = attempt_with(ReviewState::New);
    scheduler.schedule(&mut wrong, 1, 0);
    assert_eq!(wrong.review_state, ReviewState::Learning);
    for rating in 2..=4 {
        let mut right = attempt_with(ReviewState::New);
        scheduler.schedule(&mut right, rating, 0);
        assert_eq!(right.review_state, ReviewState::Review);
    }
}

#[test]
fn learning_item_moves_on_by_rating() {
    let scheduler = FSRSScheduler::default();
    for state in [ReviewState::Learning, ReviewState::Relearning] {
        let mut wrong = attempt_with(state);
        scheduler.schedule(&mut wrong, 1, 0);
        assert_eq!(wrong.review_state, ReviewState::Relearning);
        for rating in 2..=4 {
            let mut right = attempt_with(state);
            scheduler.schedule(&mut right, rating, 0);
            assert_eq!(right.review_state, ReviewState::Review);
        }
    }
}

#[test]
fn reviewed_item_moves_on_by_rating() {
    let scheduler = FSRSScheduler::default();
    let mut wrong = attempt_with(ReviewState::Review);
    scheduler.schedule(&mut wrong, 1, 0);
    assert_eq!(wrong.review_state, ReviewState::Relearning);
    for rating in 2..=4 {
        let mut right = attempt_with(ReviewState::Review);
        scheduler.schedule(&mut right, rating, 0);
        assert_eq!(right.review_state, ReviewState::Review);
    }
}

#[test]
fn learning_item_gets_the_short_term_update() {
    let scheduler = FSRSScheduler::default();
    let mut attempt = attempt_with(ReviewState::Learning);
    scheduler.schedule(&mut attempt, 3, 999_999);
    assert_eq!(attempt.difficulty, 4_999_300);
    assert_eq!(attempt.stability, 9_540_000);
    assert_eq!(attempt.scheduled_days, 1);
    assert_eq!(attempt.review_state, ReviewState::Review);
    let mut slipped = attempt_with(ReviewState::Relearning);
    scheduler.schedule(&mut slipped, 1, 0);
    assert_eq!(slipped.difficulty, 6_702_100);
    assert_eq!(slipped.stability, -3_540_000);
    assert_eq!(slipped.scheduled_days, 1);
}

#[test]
fn reviewed_item_gets_the_recall_update() {
    let scheduler = FSRSScheduler::default();
    let mut attempt = attempt_with(ReviewState::Review);
    attempt.elapsed_days = 3;
    let recalled = scheduler.forgetting_curve(3, 3_000_000);
    assert_eq!(recalled, 900_000);
    scheduler.schedule(&mut attempt, 4, 49_787);
    assert_eq!(attempt.difficulty, 4_147_900);
    assert_eq!(
        attempt.stability,
        scheduler.next_recall_stability(5_000_000, 3_000_000, 900_000, 49_787, 4)
    );
    assert_eq!(attempt.stability, 21_612_225);
    assert_eq!(attempt.scheduled_days, 1);
    assert_eq!(attempt.elapsed_days, 3);
    assert_eq!(attempt.sir_phase, SirPhase::MediumSpacing);
    assert_eq!(attempt.next_review_date, 99);
    assert_eq!(attempt.attempted_at, 77);
    assert_eq!(attempt.item_id, "i");
}

#[test]
fn scheduled_days_are_bounded_whatever_comes_in() {
    let mut params = FSRSParameters::default();
    params.maximum_interval = 30;
    let scheduler = FSRSScheduler::new(params);
    for state in [
        ReviewState::New,
        ReviewState::Learning,
        ReviewState::Review,
        ReviewState::Relearning,
    ] {
        for stability in [i64::MIN, -40_000_000, 0, 1, 40_000_000, i64::MAX] {
            for decay in [i64::MIN, 0, 500_000, i64::MAX] {
                for rating in 1..=4 {
                    let mut attempt = attempt_with(state);
                    attempt.stability = stability;
                    attempt.elapsed_days = 12;
                    scheduler.schedule(&mut attempt, rating, decay);
                    assert!(attempt.scheduled_days >= 1 && attempt.scheduled_days <= 30);
                    assert!(attempt.difficulty >= 1_000_000 && attempt.difficulty <= 10_000_000);
                }
            }
        }
    }
}
