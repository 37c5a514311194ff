use gapfinder::fsrs::FSRSScheduler;
use gapfinder::mastery::{
    brier_score, concept_attempts, figures, get_concept_mastery, refs_of, MOST_ATTEMPTS,
    MOST_STABILITY,
};
use gapfinder::models::{
    Attempt, Concept, Item, ItemHistory, ItemType, MasteryFigures, Ratio, ReviewState, SirPhase,
};

fn answer(is_correct: bool, confidence: i32, stability: i64) -> Attempt {
    Attempt {
        id: "a".to_string(),
        item_id: "i".to_string(),
        session_id: None,
        user_answer: "answer".to_string(),
        is_correct,
        confidence,
        time_spent_ms: 1000,
        attempted_at: 10,
        sir_phase: SirPhase::Encoding,
        next_review_date: 10,
        metacognitive: None,
        stability,
        difficulty: 5_000_000,
        elapsed_days: 0,
        scheduled_days: 1,
        review_state: ReviewState::Review,
    }
}

fn answer_at(is_correct: bool, confidence: i32, stability: i64, attempted_at: i64) -> Attempt {
    let mut attempt = answer(is_correct, confidence, stability);
    attempt.attempted_at = attempted_at;
    attempt
}

fn item_on(id: &str, concepts: &[&str], attempts: Vec<Attempt>) -> ItemHistory {
    ItemHistory {
        item: Item {
            id: id.to_string(),
            stem: "stem".to_string(),
            item_type: ItemType::FreeRecall { correct_answer: "x".to_string() },
            concept_ids: concepts.iter().map(|c| c.to_string()).collect(),
            difficulty: 50,
            source: None,
            explanation: "because".to_string(),
            created_at: 0,
            updated_at: 0,
        },
        attempts,
    }
}

fn concept(id: &str, name: &str) -> Concept {
    Concept {
        id: id.to_string(),
        name: name.to_string(),
        domain: "domain".to_string(),
        subdomain: None,
        description: None,
        tags: Vec::new(),
        learning_material_id: None,
        created_at: 0,
        updated_at: 0,
    }
}

fn value(ratio: Ratio) -> f64 {
    ratio.numerator as f64 / ratio.denominator as f64
}

fn score_in_floating_point(attempts: &[Attempt]) -> f64 {
    if attempts.is_empty() {
        return 0.0;
    }
    let total = attempts.len() as f64;
    let correct = attempts.iter().filter(|a| a.is_correct).count() as f64;
    let accuracy = correct / total * 100.0;
    let mean_stability =
        attempts.iter().map(|a| a.stability as f64 / 1_000_000.0).sum::<f64>() / total;
    let brier = attempts
        .iter()
        .map(|a| {
            let stated = a.confidence as f64 / 5.0;
            let actual = if a.is_correct { 1.0 } else { 0.0 };
            (stated - actual) * (stated - actual)
        })
        .sum::<f64>()
        / total;
    let calibration = (1.0 - brier).max(0.0);
    let recent: Vec<&Attempt> = attempts.iter().take(5).collect();
    let recent_accuracy =
        recent.iter().filter(|a| a.is_correct).count() as f64 / recent.len().max(1) as f64;
    let base = accuracy * 0.6 + mean_stability / 100.0 * 20.0;
    let calibrated = base * (0.7 + calibration * 0.3);
    let score = calibrated * 0.7 + recent_accuracy * 100.0 * 1.5 * 0.3;
    score.min(100.0)
}

#[test]
fn brier_score_of_nothing_is_one_half() {
    let scheduler = FSRSScheduler::default();
    let score = scheduler.calculate_brier_score(&[]);
    assert_eq!(score, Ratio { numerator: 1, denominator: 2 });
    assert_eq!(value(score), 0.5);
}

#[test]
fn brier_score_of_full_confidence_in_correct_answers_is_zero() {
    let scheduler = FSRSScheduler::default();
    let attempts = vec![answer(true, 5, 0), answer(true, 5, 0), answer(true, 5, 0)];
    let score = scheduler.calculate_brier_score(&attempts);
    assert_eq!(score, Ratio { numerator: 0, denominator: 75 });
    assert_eq!(value(score), 0.0);
}

#[test]
fn brier_score_is_the_mean_squared_residual() {
    let scheduler = FSRSScheduler::default();
    let attempts = vec![answer(true, 3, 0), answer(false, 4, 0)];
    let score = scheduler.calculate_brier_score(&attempts);
    assert_eq!(score, Ratio { numerator: 20, denominator: 50 });
    let one = scheduler.calculate_brier_score(&[answer(false, 5, 0)]);
    assert_eq!(one, Ratio { numerator: 25, denominator: 25 });
    let mixed = scheduler.calculate_brier_score(&[answer(true, 1, 0), answer(false, 1, 0)]);
    assert_eq!(mixed, Ratio { numerator: 17, denominator: 50 });
}

#[test]
fn brier_score_stays_within_one_for_confidences_in_range() {
    let scheduler = FSRSScheduler::default();
    for is_correct in [false, true] {
        for confidence in 0..=5 {
            let score = scheduler.calculate_brier_score(&[answer(is_correct, confidence, 0)]);
            assert!(score.numerator >= 0);
            assert!(score.numerator <= score.denominator);
        }
    }
}

#[test]
fn brier_score_of_a_confidence_far_out_of_range() {
    let scheduler = FSRSScheduler::default();
    let score = scheduler.calculate_brier_score(&[answer(true, i32::MIN, 0)]);
    assert_eq!(score.numerator, (i32::MIN as i128 - 5) * (i32::MIN as i128 - 5));
    assert_eq!(score.denominator, 25);
    let other = scheduler.calculate_brier_score(&[answer(false, i32::MAX, 0)]);
    assert_eq!(other.numerator, (i32::MAX as i128) * (i32::MAX as i128));
}

#[test]
fn figures_of_a_history() {
    let attempts = vec![
        answer(true, 5, 1_000_000),
        answer(false, 2, 2_000_000),
        answer(true, 4, 3_000_000),
        answer(true, 3, -500_000),
        answer(false, 1, 0),
        answer(true, 5, 4_000_000),
        answer(true, 5, 5_000_000),
    ];
    let refs = refs_of(&attempts);
    assert_eq!(refs.len(), 7);
    let figures = figures(&refs);
    assert_eq!(
        figures,
        MasteryFigures {
            attempts: 7,
            correct: 5,
            recent_attempts: 5,
            recent_correct: 3,
            confidence_sum: 25,
            stability_sum: 14_500_000,
            squared_residuals: 4 + 1 + 4 + 1,
        }
    );
    assert_eq!(brier_score(&figures), Ratio { numerator: 10, denominator: 175 });
}

#[test]
fn figures_of_nothing() {
    let figures = figures(&Vec::new());
    assert_eq!(
        figures,
        MasteryFigures {
            attempts: 0,
            correct: 0,
            recent_attempts: 0,
            recent_correct: 0,
            confidence_sum: 0,
            stability_sum: 0,
            squared_residuals: 0,
        }
    );
}

#[test]
fn mastery_of_nothing_is_zero() {
    let scheduler = FSRSScheduler::default();
    let score = scheduler.calculate_mastery(&[]);
    assert_eq!(score, Some(Ratio { numerator: 0, denominator: 1 }));
    assert_eq!(value(score.unwrap()), 0.0);
}

#[test]
fn mastery_of_one_good_answer() {
    let scheduler = FSRSScheduler::default();
    let score = scheduler.calculate_mastery(&[answer(true, 5, 2_400_000)]).unwrap();
    assert_eq!(score, Ratio { numerator: 1_091_700_000_000, denominator: 12_500_000_000 });
    assert!((value(score) - 87.336).abs() < 1e-12);
}

#[test]
fn mastery_of_one_bad_answer() {
    let scheduler = FSRSScheduler::default();
    let score = scheduler.calculate_mastery(&[answer(false, 5, 400_000)]).unwrap();
    assert_eq!(score, Ratio { numerator: 7 * 400_000 * 175, denominator: 12_500_000_000 });
    assert!((value(score) - 0.0392).abs() < 1e-12);
}

#[test]
fn mastery_is_held_at_a_hundred() {
    let scheduler = FSRSScheduler::default();
    let score = scheduler.calculate_mastery(&[answer(true, 5, 1_000_000_000)]).unwrap();
    assert_eq!(score, Ratio { numerator: 100, denominator: 1 });
    let near = MasteryFigures {
        attempts: 1,
        correct: 1,
        recent_attempts: 1,
        recent_correct: 1,
        confidence_sum: 5,
        stability_sum: 92_857_142,
        squared_residuals: 0,
    };
    assert_eq!(
        near.mastery_score(),
        Some(Ratio { numerator: 1_249_999_998_500, denominator: 12_500_000_000 })
    );
    let over = MasteryFigures { stability_sum: 92_857_143, ..near };
    assert_eq!(over.mastery_score(), Some(Ratio { numerator: 100, denominator: 1 }));
}

#[test]
fn mastery_matches_the_formula_in_floating_point() {
    let scheduler = FSRSScheduler::default();
    let histories = vec![
        vec![answer(true, 4, 2_400_000), answer(false, 3, 600_000), answer(true, 5, 5_800_000)],
        vec![answer(false, 1, 400_000)],
        vec![
            answer(true, 5, 30_000_000),
            answer(true, 4, 21_000_000),
            answer(true, 3, 14_000_000),
            answer(false, 5, 9_000_000),
            answer(true, 2, 5_000_000),
            answer(false, 2, 2_000_000),
            answer(false, 1, 1_000_000),
        ],
        vec![answer(true, 9, 1_000_000), answer(false, 12, 1_000_000)],
    ];
    for attempts in histories {
        let exact = value(scheduler.calculate_mastery(&attempts).unwrap());
        let floating = score_in_floating_point(&attempts);
        assert!((exact - floating).abs() < 1e-9, "{} against {}", exact, floating);
    }
}

#[test]
fn mastery_does_not_fall_when_accuracy_rises() {
    let base = MasteryFigures {
        attempts: 8,
        correct: 0,
        recent_attempts: 5,
        recent_correct: 2,
        confidence_sum: 24,
        stability_sum: 19_000_000,
        squared_residuals: 60,
    };
    let mut last = value(base.mastery_score().unwrap());
    for correct in 1..=8 {
        let figures = MasteryFigures { correct, ..base };
        let score = value(figures.mastery_score().unwrap());
        assert!(score >= last);
        last = score;
    }
}

#[test]
fn mastery_does_not_fall_when_wrong_answers_are_correct() {
    let scheduler = FSRSScheduler::default();
    for stability in [0, 400_000, 30_000_000, 900_000_000, 5_000_000_000] {
        for length in 1..=7usize {
            for confidence in 1..=5 {
                let mut history: Vec<Attempt> =
                    (0..length).map(|_| answer(false, confidence, stability)).collect();
                let mut last = value(scheduler.calculate_mastery(&history).unwrap());
                for turned in (0..length).rev() {
                    history[turned].is_correct = true;
                    let score = value(scheduler.calculate_mastery(&history).unwrap());
                    assert!(score >= last, "{} after {}", score, last);
                    last = score;
                }
            }
        }
    }
}

#[test]
fn correct_answer_at_the_lowest_confidence_is_further_from_its_outcome() {
    let scheduler = FSRSScheduler::default();
    let wrong = scheduler.calculate_brier_score(&[answer(false, 1, 0)]);
    let right = scheduler.calculate_brier_score(&[answer(true, 1, 0)]);
    assert_eq!(wrong, Ratio { numerator: 1, denominator: 25 });
    assert_eq!(right, Ratio { numerator: 16, denominator: 25 });
    let low = value(scheduler.calculate_mastery(&[answer(false, 1, 1_000_000)]).unwrap());
    let high = value(scheduler.calculate_mastery(&[answer(true, 1, 1_000_000)]).unwrap());
    assert!(low < high);
}

#[test]
fn mastery_is_not_worked_out_beyond_the_limits() {
    let within = MasteryFigures {
        attempts: MOST_ATTEMPTS,
        correct: MOST_ATTEMPTS,
        recent_attempts: 5,
        recent_correct: 5,
        confidence_sum: 0,
        stability_sum: MOST_STABILITY,
        squared_residuals: 0,
    };
    assert!(within.is_within_limits());
    assert_eq!(within.mastery_score(), Some(Ratio { numerator: 100, denominator: 1 }));
    let lowest = MasteryFigures { stability_sum: -MOST_STABILITY, correct: 0, ..within };
    assert!(lowest.mastery_score().unwrap().numerator < 0);
    for beyond in [
        MasteryFigures { attempts: MOST_ATTEMPTS + 1, ..within },
        MasteryFigures { correct: MOST_ATTEMPTS + 1, ..within },
        MasteryFigures { stability_sum: MOST_STABILITY + 1, ..within },
        MasteryFigures { stability_sum: -MOST_STABILITY - 1, ..within },
        MasteryFigures { recent_attempts: 6, ..within },
        MasteryFigures { recent_correct: 6, ..within },
        MasteryFigures { squared_residuals: -1, ..within },
    ] {
        assert!(!beyond.is_within_limits());
        assert_eq!(beyond.mastery_score(), None);
    }
    let scheduler = FSRSScheduler::default();
    let heavy = vec![answer(true, 5, i64::MAX), answer(true, 5, i64::MAX)];
    assert_eq!(scheduler.calculate_mastery(&heavy), None);
}

#[test]
fn history_of_a_concept_runs_item_after_item() {
    let histories = vec![
        item_on("one", &["c1", "c2"], vec![answer_at(true, 5, 0, 30), answer_at(false, 2, 0, 20)]),
        item_on("two", &["c2"], vec![answer_at(true, 4, 0, 40)]),
        item_on("three", &[], vec![answer_at(true, 4, 0, 50)]),
        item_on("four", &["c3", "c1"], vec![answer_at(false, 1, 0, 10)]),
    ];
    let first: Vec<i64> =
        concept_attempts(&histories, &"c1".to_string()).iter().map(|a| a.attempted_at).collect();
    assert_eq!(first, vec![30, 20, 10]);
    let second: Vec<i64> =
        concept_attempts(&histories, &"c2".to_string()).iter().map(|a| a.attempted_at).collect();
    assert_eq!(second, vec![30, 20, 40]);
    assert!(concept_attempts(&histories, &"c4".to_string()).is_empty());
    assert!(concept_attempts(&histories, &"".to_string()).is_empty());
}

#[test]
fn concept_mastery_reports_every_concept_in_order() {
    let histories = vec![
        item_on(
            "one",
            &["c1"],
            vec![answer_at(true, 5, 2_400_000, 300), answer_at(false, 4, 400_000, 200)],
        ),
        item_on("two", &["c1", "c2"], vec![answer_at(true, 3, 600_000, 100)]),
        item_on("three", &["c2"], vec![]),
    ];
    let concepts = vec![concept("c2", "second"), concept("c1", "first"), concept("c0", "none")];
    let reports = get_concept_mastery(&concepts, &histories);
    assert_eq!(reports.len(), 3);

    assert_eq!(reports[0].concept_id, "c2");
    assert_eq!(reports[0].concept_name, "second");
    assert_eq!(reports[0].figures.attempts, 1);
    assert_eq!(reports[0].figures.correct, 1);
    assert_eq!(reports[0].figures.confidence_sum, 3);
    assert_eq!(reports[0].figures.stability_sum, 600_000);
    assert_eq!(reports[0].brier_score, Ratio { numerator: 4, denominator: 25 });
    assert_eq!(reports[0].last_attempted, Some(100));
    assert_eq!(reports[0].trend, "stable");

    assert_eq!(reports[1].concept_id, "c1");
    assert_eq!(reports[1].concept_name, "first");
    assert_eq!(
        reports[1].figures,
        MasteryFigures {
            attempts: 3,
            correct: 2,
            recent_attempts: 3,
            recent_correct: 2,
            confidence_sum: 12,
            stability_sum: 3_400_000,
            squared_residuals: 20,
        }
    );
    assert_eq!(reports[1].brier_score, Ratio { numerator: 20, denominator: 75 });
    assert_eq!(reports[1].last_attempted, Some(300));
    let all: Vec<Attempt> = vec![
        answer(true, 5, 2_400_000),
        answer(false, 4, 400_000),
        answer(true, 3, 600_000),
    ];
    assert_eq!(reports[1].mastery_score, FSRSScheduler::default().calculate_mastery(&all));
    let score = value(reports[1].mastery_score.unwrap());
    assert!((score - score_in_floating_point(&all)).abs() < 1e-9);

    assert_eq!(reports[2].concept_id, "c0");
    assert_eq!(reports[2].figures.attempts, 0);
    assert_eq!(reports[2].figures.correct, 0);
    assert_eq!(reports[2].mastery_score, Some(Ratio { numerator: 0, denominator: 1 }));
    assert_eq!(reports[2].brier_score, Ratio { numerator: 1, denominator: 2 });
    assert_eq!(reports[2].last_attempted, None);
    assert_eq!(reports[2].trend, "stable");
}

#[test]
fn concept_mastery_without_concepts() {
    let histories = vec![item_on("one", &["c1"], vec![answer(true, 5, 0)])];
    assert!(get_concept_mastery(&Vec::new(), &histories).is_empty());
}
