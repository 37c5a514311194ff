//! The continuous memory model: what an answer does to the review state, the
//! stability and the difficulty of an item, and the interval before its next
//! review.
//!
//! Stability, difficulty and the weights of the model are real numbers held
//! in millionths; what the model makes of them is rounded down to the
//! millionth. Two values on the way go through an exponential and a
//! logarithm, which integers do not have: the decay of the stability on the
//! attempt, e to the power of minus the stability, which the caller hands to
//! `schedule`, and the retention factor of the configuration.

use vstd::prelude::*;

use crate::fixed::{
    floor_div, floor_quotient, held_between, multiply, product, round_div, rounded_quotient,
    saturate, saturated, times, times_grows, times_grows_left, times_is_not_negative, UNIT,
};
use crate::mastery::{
    brier_fraction, brier_score, figures, refs_of, squared_residual, tally_of, total,
    RESIDUAL_SCALE,
};
use crate::models::{Attempt, Ratio, ReviewState};

verus! {

/// Number of weights of the model.
pub const WEIGHTS: usize = 17;

/// Lowest difficulty, in millionths: 1.
pub const MIN_DIFFICULTY: i64 = 1_000_000;

/// Highest difficulty, in millionths: 10.
pub const MAX_DIFFICULTY: i64 = 10_000_000;

/// Lowest stability of a new item, in millionths of a day: a tenth of a day.
pub const MIN_INITIAL_STABILITY: i64 = 100_000;

/// Lowest retrievability that the model reckons with, in millionths: a
/// hundredth.
pub const MIN_RETRIEVABILITY: i64 = 10_000;

/// The difficulty that the growth of stability is taken from, in millionths:
/// 11.
pub const DIFFICULTY_CEILING: i64 = 11_000_000;

/// Largest weight, to either side of zero, in millionths.
pub const WEIGHT_LIMIT: i64 = 0x100_0000_0000;

/// The rating that belongs to a wrong answer.
pub const RATING_AGAIN: i32 = 1;

/// The lowest rating of a correct answer.
pub const RATING_HARD: i32 = 2;

/// The highest rating.
pub const RATING_EASY: i32 = 4;

/// The configuration of the model. Weights, retention and retention factor
/// are in millionths.
#[derive(Debug, Clone, Copy)]
pub struct FSRSParameters {
    pub w: [i64; 17],
    /// The probability of recall that the intervals aim for.
    pub request_retention: i64,
    /// The logarithm of the retention to the base one half, less one. Who
    /// sets the retention sets this with it.
    pub retention_factor: i64,
    /// The longest interval, in days.
    pub maximum_interval: i32,
}

impl FSRSParameters {
    /// The weights that the model uses unless it is given others.
    pub open spec fn standard_weights() -> Seq<i64> {
        seq![
            400_000i64,
            600_000i64,
            2_400_000i64,
            5_800_000i64,
            4_930_000i64,
            940_000i64,
            860_000i64,
            10_000i64,
            1_490_000i64,
            140_000i64,
            940_000i64,
            2_180_000i64,
            50_000i64,
            340_000i64,
            1_260_000i64,
            290_000i64,
            2_610_000i64,
        ]
    }

    /// No weight is beyond the limit, and the longest interval is a day or
    /// more.
    pub open spec fn well_formed(self) -> bool {
        &&& forall|i: int|
            0 <= i < WEIGHTS ==> -WEIGHT_LIMIT <= #[trigger] self.w@[i] <= WEIGHT_LIMIT
        &&& self.maximum_interval >= 1
    }

    /// A better rating starts a new item with no less stability.
    pub open spec fn initial_stabilities_ordered(self) -> bool {
        self.w@[0] <= self.w@[1] <= self.w@[2] <= self.w@[3]
    }

    /// Whether the configuration is well formed.
    pub fn is_well_formed(&self) -> (ok: bool)
        ensures
            ok == self.well_formed(),
    {
        let mut i: usize = 0;
        while i < WEIGHTS
            invariant
                i <= WEIGHTS,
                forall|k: int|
                    0 <= k < i ==> -WEIGHT_LIMIT <= #[trigger] self.w@[k] <= WEIGHT_LIMIT,
            decreases WEIGHTS - i,
        {
            if self.w[i] < -WEIGHT_LIMIT || self.w[i] > WEIGHT_LIMIT {
                return false;
            }
            i = i + 1;
        }
        self.maximum_interval >= 1
    }
}

impl Default for FSRSParameters {
    fn default() -> (params: FSRSParameters)
        ensures
            params.w@ == FSRSParameters::standard_weights(),
            params.request_retention == 900_000,
            params.retention_factor == -847_997,
            params.maximum_interval == 36_500,
            params.well_formed(),
            params.initial_stabilities_ordered(),
    {
        let params = FSRSParameters {
            w: [
                400_000,
                600_000,
                2_400_000,
                5_800_000,
                4_930_000,
                940_000,
                860_000,
                10_000,
                1_490_000,
                140_000,
                940_000,
                2_180_000,
                50_000,
                340_000,
                1_260_000,
                290_000,
                2_610_000,
            ],
            request_retention: 900_000,
            retention_factor: -847_997,
            maximum_interval: 36_500,
        };
        params
    }
}

/// The state after an answer. A new item goes to `Learning` on a wrong
/// answer and to `Review` on a correct one; an item that is being learned or
/// relearned goes to `Review` on a correct answer and to `Relearning` on a
/// wrong one; an item under review stays there on a correct answer and goes
/// to `Relearning` on a wrong one.
pub open spec fn next_review_state(state: ReviewState, rating: int) -> ReviewState {
    match state {
        ReviewState::New => if rating == RATING_AGAIN {
            ReviewState::Learning
        } else {
            ReviewState::Review
        },
        ReviewState::Learning | ReviewState::Relearning => if rating > RATING_AGAIN {
            ReviewState::Review
        } else {
            ReviewState::Relearning
        },
        ReviewState::Review => if rating == RATING_AGAIN {
            ReviewState::Relearning
        } else {
            ReviewState::Review
        },
    }
}

/// The rating of an answer: 1 for a wrong one, and for a correct one its
/// confidence, held between 2 and 4.
pub open spec fn spec_rating_for(is_correct: bool, confidence: int) -> int {
    if is_correct {
        held_between(confidence, RATING_HARD as int, RATING_EASY as int)
    } else {
        RATING_AGAIN as int
    }
}

/// The rating of an answer.
pub fn rating_for(is_correct: bool, confidence: i32) -> (rating: i32)
    ensures
        rating == spec_rating_for(is_correct, confidence as int),
        RATING_AGAIN <= rating <= RATING_EASY,
{
    if !is_correct {
        RATING_AGAIN
    } else if confidence < RATING_HARD {
        RATING_HARD
    } else if confidence > RATING_EASY {
        RATING_EASY
    } else {
        confidence
    }
}

/// The memory-model scheduler.
#[derive(Debug, Clone, Copy)]
pub struct FSRSScheduler {
    pub params: FSRSParameters,
}

impl Default for FSRSScheduler {
    fn default() -> (scheduler: FSRSScheduler)
        ensures
            scheduler.params.w@ == FSRSParameters::standard_weights(),
            scheduler.params.request_retention == 900_000,
            scheduler.params.retention_factor == -847_997,
            scheduler.params.maximum_interval == 36_500,
            scheduler.params.well_formed(),
    {
        FSRSScheduler { params: FSRSParameters::default() }
    }
}

impl FSRSScheduler {
    /// The stability that a new item starts with: the weight of its rating,
    /// and a tenth of a day where the weight is below that.
    pub open spec fn spec_init_stability(self, rating: int) -> int {
        if self.params.w@[rating - 1] < MIN_INITIAL_STABILITY {
            MIN_INITIAL_STABILITY as int
        } else {
            self.params.w@[rating - 1] as int
        }
    }

    /// The difficulty that a new item starts with: the fifth weight, less
    /// the sixth for every step of the rating above 3, held between 1 and 10.
    pub open spec fn spec_init_difficulty(self, rating: int) -> int {
        held_between(
            self.params.w@[4] - self.params.w@[5] * (rating - 3),
            MIN_DIFFICULTY as int,
            MAX_DIFFICULTY as int,
        )
    }

    /// The difficulty after an answer: the difficulty before, less the
    /// seventh weight for every step of the rating above 3, then pulled
    /// towards the fifth weight by the share that the eighth weight gives,
    /// and held between 1 and 10.
    pub open spec fn spec_next_difficulty(self, difficulty: int, rating: int) -> int {
        let shifted = difficulty - self.params.w@[6] * (rating - 3);
        held_between(
            (self.params.w@[7] * self.params.w@[4] + (UNIT - self.params.w@[7]) * shifted) / (
            UNIT as int),
            MIN_DIFFICULTY as int,
            MAX_DIFFICULTY as int,
        )
    }

    /// The stability of an item that is being learned, after an answer: the
    /// stability before, times one and the twelfth weight for every step of
    /// the rating above 2.
    pub open spec fn spec_short_term_stability(self, stability: int, rating: int) -> int {
        times(stability, UNIT + self.params.w@[11] * (rating - 2))
    }

    /// The probability that an item is still recalled after some days: one
    /// over one and the days by nine times the stability, and never under a
    /// hundredth. Where the stability is nothing the probability is the
    /// hundredth; where the days cancel nine times a stability below nothing
    /// it is as large as 64 bits hold.
    pub open spec fn spec_forgetting_curve(self, elapsed_days: int, stability: int) -> int {
        let spread = 9 * stability + elapsed_days * UNIT;
        if spread == 0 {
            if stability == 0 {
                MIN_RETRIEVABILITY as int
            } else {
                i64::MAX as int
            }
        } else {
            let recalled = saturated(floor_quotient(9 * stability * UNIT, spread));
            if recalled < MIN_RETRIEVABILITY {
                MIN_RETRIEVABILITY as int
            } else {
                recalled
            }
        }
    }

    /// What the stability of an item under review grows by: one, and the
    /// decay by the ninth weight, and what the difficulty leaves of 11 by the
    /// tenth, and the retrievability by the eleventh.
    pub open spec fn spec_recall_growth(
        self,
        difficulty: int,
        retrievability: int,
        decay: int,
    ) -> int {
        saturated(
            (UNIT * UNIT + decay * self.params.w@[8] + (DIFFICULTY_CEILING - difficulty)
                * self.params.w@[9] + retrievability * self.params.w@[10]) / (UNIT as int),
        )
    }

    /// What a rating of 2 takes from the growth: the sixteenth weight.
    pub open spec fn spec_hard_penalty(self, rating: int) -> int {
        if rating == RATING_HARD {
            self.params.w@[15] as int
        } else {
            UNIT as int
        }
    }

    /// What a rating of 4 adds to the growth: the seventeenth weight.
    pub open spec fn spec_easy_bonus(self, rating: int) -> int {
        if rating == RATING_EASY {
            self.params.w@[16] as int
        } else {
            UNIT as int
        }
    }

    /// The stability of an item under review, after an answer: the stability
    /// before, times the growth, times the penalty of a rating of 2, times
    /// the bonus of a rating of 4.
    pub open spec fn spec_next_recall_stability(
        self,
        difficulty: int,
        stability: int,
        retrievability: int,
        decay: int,
        rating: int,
    ) -> int {
        times(
            times(
                times(stability, self.spec_recall_growth(difficulty, retrievability, decay)),
                self.spec_hard_penalty(rating),
            ),
            self.spec_easy_bonus(rating),
        )
    }

    /// The interval that a stability asks for, in days: the stability by the
    /// seventeenth weight, times the retention factor, rounded to the nearest
    /// day and held between one day and the longest interval. Where the
    /// weight is nothing, the interval is the longest if stability and
    /// retention factor have the same sign, and a day if not.
    pub open spec fn spec_next_interval(self, stability: int) -> int {
        if self.params.w@[16] == 0 {
            if stability * self.params.retention_factor > 0 {
                self.params.maximum_interval as int
            } else {
                1
            }
        } else {
            held_between(
                rounded_quotient(
                    stability * self.params.retention_factor,
                    self.params.w@[16] * UNIT,
                ),
                1,
                self.params.maximum_interval as int,
            )
        }
    }

    /// The difficulty of the item of an attempt after an answer.
    pub open spec fn spec_difficulty_after(self, attempt: Attempt, rating: int) -> int {
        match attempt.review_state {
            ReviewState::New => self.spec_init_difficulty(rating),
            _ => self.spec_next_difficulty(attempt.difficulty as int, rating),
        }
    }

    /// The stability of the item of an attempt after an answer. `decay` is
    /// e to the power of minus the stability on the attempt, the stability in
    /// days; it counts for an item under review only.
    pub open spec fn spec_stability_after(self, attempt: Attempt, rating: int, decay: int) -> int {
        match attempt.review_state {
            ReviewState::New => self.spec_init_stability(rating),
            ReviewState::Learning | ReviewState::Relearning => self.spec_short_term_stability(
                attempt.stability as int,
                rating,
            ),
            ReviewState::Review => self.spec_next_recall_stability(
                attempt.difficulty as int,
                attempt.stability as int,
                self.spec_forgetting_curve(attempt.elapsed_days as int, attempt.stability as int),
                decay,
                rating,
            ),
        }
    }

    /// A scheduler over a configuration.
    pub fn new(params: FSRSParameters) -> (scheduler: FSRSScheduler)
        ensures
            scheduler.params == params,
    {
        FSRSScheduler { params }
    }

    /// The weight at a position.
    fn weight(&self, at: usize) -> (weight: i128)
        requires
            self.params.well_formed(),
            at < WEIGHTS,
        ensures
            weight == self.params.w@[at as int],
            -WEIGHT_LIMIT <= weight <= WEIGHT_LIMIT,
    {
        self.params.w[at] as i128
    }

    /// The stability that a new item starts with.
    pub fn init_stability(&self, rating: i32) -> (stability: i64)
        requires
            RATING_AGAIN <= rating <= RATING_EASY,
        ensures
            stability == self.spec_init_stability(rating as int),
            stability >= MIN_INITIAL_STABILITY,
    {
        let weight: i64 = self.params.w[(rating - 1) as usize];
        if weight < MIN_INITIAL_STABILITY {
            MIN_INITIAL_STABILITY
        } else {
            weight
        }
    }

    /// The difficulty that a new item starts with.
    pub fn init_difficulty(&self, rating: i32) -> (difficulty: i64)
        requires
            RATING_AGAIN <= rating <= RATING_EASY,
        ensures
            difficulty == self.spec_init_difficulty(rating as int),
            MIN_DIFFICULTY <= difficulty <= MAX_DIFFICULTY,
    {
        let steps: i128 = (rating - 3) as i128;
        let raw: i128 = self.params.w[4] as i128 - scaled(
            self.params.w[5] as i128,
            steps,
            Ghost(0x8000_0000_0000_0000),
            Ghost(2),
        );
        constrain(raw)
    }

    /// The difficulty after an answer.
    pub fn next_difficulty(&self, difficulty: i64, rating: i32) -> (next: i64)
        requires
            RATING_AGAIN <= rating <= RATING_EASY,
            self.params.well_formed(),
        ensures
            next == self.spec_next_difficulty(difficulty as int, rating as int),
            MIN_DIFFICULTY <= next <= MAX_DIFFICULTY,
    {
        let steps: i128 = (rating - 3) as i128;
        let shifted: i128 = difficulty as i128 - scaled(
            self.weight(6),
            steps,
            Ghost(WEIGHT_LIMIT as int),
            Ghost(2),
        );
        let anchor: i128 = scaled(
            self.weight(7),
            self.weight(4),
            Ghost(WEIGHT_LIMIT as int),
            Ghost(WEIGHT_LIMIT as int),
        );
        let drift: i128 = scaled(
            UNIT as i128 - self.weight(7),
            shifted,
            Ghost(0x200_0000_0000),
            Ghost(0x1_0000_0000_0000_0000),
        );
        constrain(floor_div(anchor + drift, UNIT as i128))
    }

    /// The stability of an item that is being learned, after an answer.
    pub fn short_term_stability(&self, stability: i64, rating: i32) -> (next: i64)
        requires
            RATING_AGAIN <= rating <= RATING_EASY,
            self.params.well_formed(),
        ensures
            next == self.spec_short_term_stability(stability as int, rating as int),
    {
        let steps: i128 = (rating - 2) as i128;
        let factor: i128 = UNIT as i128 + scaled(
            self.weight(11),
            steps,
            Ghost(WEIGHT_LIMIT as int),
            Ghost(2),
        );
        multiply(stability, factor as i64)
    }

    /// The probability that an item is still recalled after some days.
    pub fn forgetting_curve(&self, elapsed_days: i32, stability: i64) -> (recalled: i64)
        ensures
            recalled == self.spec_forgetting_curve(elapsed_days as int, stability as int),
            recalled >= MIN_RETRIEVABILITY,
    {
        let ninefold: i128 = 9 * (stability as i128);
        let spread: i128 = ninefold + scaled(
            elapsed_days as i128,
            UNIT as i128,
            Ghost(0x8000_0000),
            Ghost(UNIT as int),
        );
        if spread == 0 {
            if stability == 0 {
                MIN_RETRIEVABILITY
            } else {
                i64::MAX
            }
        } else {
            let recalled = saturate(
                floor_div(
                    scaled(
                        ninefold,
                        UNIT as i128,
                        Ghost(0x10_0000_0000_0000_0000),
                        Ghost(UNIT as int),
                    ),
                    spread,
                ),
            );
            if recalled < MIN_RETRIEVABILITY {
                MIN_RETRIEVABILITY
            } else {
                recalled
            }
        }
    }

    /// What the stability of an item under review grows by.
    pub fn recall_growth(&self, difficulty: i64, retrievability: i64, decay: i64) -> (growth: i64)
        requires
            self.params.well_formed(),
        ensures
            growth == self.spec_recall_growth(
                difficulty as int,
                retrievability as int,
                decay as int,
            ),
    {
        let by_decay: i128 = scaled(
            decay as i128,
            self.weight(8),
            Ghost(0x8000_0000_0000_0000),
            Ghost(WEIGHT_LIMIT as int),
        );
        let by_difficulty: i128 = scaled(
            DIFFICULTY_CEILING as i128 - difficulty as i128,
            self.weight(9),
            Ghost(0x1_0000_0000_0000_0000),
            Ghost(WEIGHT_LIMIT as int),
        );
        let by_retrievability: i128 = scaled(
            retrievability as i128,
            self.weight(10),
            Ghost(0x8000_0000_0000_0000),
            Ghost(WEIGHT_LIMIT as int),
        );
        let one: i128 = scaled(UNIT as i128, UNIT as i128, Ghost(UNIT as int), Ghost(UNIT as int));
        saturate(floor_div(one + by_decay + by_difficulty + by_retrievability, UNIT as i128))
    }

    /// The stability of an item under review, after an answer.
    pub fn next_recall_stability(
        &self,
        difficulty: i64,
        stability: i64,
        retrievability: i64,
        decay: i64,
        rating: i32,
    ) -> (next: i64)
        requires
            self.params.well_formed(),
        ensures
            next == self.spec_next_recall_stability(
                difficulty as int,
                stability as int,
                retrievability as int,
                decay as int,
                rating as int,
            ),
    {
        let hard_penalty: i64 = if rating == RATING_HARD {
            self.params.w[15]
        } else {
            UNIT
        };
        let easy_bonus: i64 = if rating == RATING_EASY {
            self.params.w[16]
        } else {
            UNIT
        };
        let growth = self.recall_growth(difficulty, retrievability, decay);
        multiply(multiply(multiply(stability, growth), hard_penalty), easy_bonus)
    }

    /// The interval that a stability asks for, in days.
    pub fn next_interval(&self, stability: i64) -> (days: i32)
        requires
            self.params.well_formed(),
        ensures
            days == self.spec_next_interval(stability as int),
            1 <= days <= self.params.maximum_interval,
    {
        let wanted = product(stability, self.params.retention_factor);
        if self.params.w[16] == 0 {
            return if wanted > 0 {
                self.params.maximum_interval
            } else {
                1
            };
        }
        let asked = round_div(
            wanted,
            scaled(self.weight(16), UNIT as i128, Ghost(WEIGHT_LIMIT as int), Ghost(UNIT as int)),
        );
        if asked < 1 {
            1
        } else if asked > self.params.maximum_interval as i128 {
            self.params.maximum_interval
        } else {
            asked as i32
        }
    }

    /// Puts the outcome of an answer with this rating on an attempt.
    ///
    /// The review state on the attempt is the state that the item was in, and
    /// moves on by the rating. A new item starts with the stability and the
    /// difficulty of its rating; an item that is being learned or relearned
    /// gets the short-term update, an item under review the update by how
    /// well it was still recalled after the elapsed days on the attempt. The
    /// interval is the one that the new stability asks for. `decay` is e to
    /// the power of minus the stability on the attempt, the stability in days
    /// and the power in millionths; it counts for an item under review only.
    pub fn schedule(&self, attempt: &mut Attempt, rating: i32, decay: i64)
        requires
            RATING_AGAIN <= rating <= RATING_EASY,
            self.params.well_formed(),
        ensures
            final(attempt).review_state == next_review_state(
                old(attempt).review_state,
                rating as int,
            ),
            final(attempt).difficulty == self.spec_difficulty_after(*old(attempt), rating as int),
            final(attempt).stability == self.spec_stability_after(
                *old(attempt),
                rating as int,
                decay as int,
            ),
            final(attempt).scheduled_days == self.spec_next_interval(
                final(attempt).stability as int,
            ),
            MIN_DIFFICULTY <= final(attempt).difficulty <= MAX_DIFFICULTY,
            old(attempt).review_state == ReviewState::New ==> final(attempt).stability
                >= MIN_INITIAL_STABILITY,
            1 <= final(attempt).scheduled_days <= self.params.maximum_interval,
            final(attempt).id == old(attempt).id,
            final(attempt).item_id == old(attempt).item_id,
            final(attempt).session_id == old(attempt).session_id,
            final(attempt).user_answer == old(attempt).user_answer,
            final(attempt).is_correct == old(attempt).is_correct,
            final(attempt).confidence == old(attempt).confidence,
            final(attempt).time_spent_ms == old(attempt).time_spent_ms,
            final(attempt).attempted_at == old(attempt).attempted_at,
            final(attempt).sir_phase == old(attempt).sir_phase,
            final(attempt).next_review_date == old(attempt).next_review_date,
            final(attempt).metacognitive == old(attempt).metacognitive,
            final(attempt).elapsed_days == old(attempt).elapsed_days,
    {
        match attempt.review_state {
            ReviewState::New => {
                attempt.difficulty = self.init_difficulty(rating);
                attempt.stability = self.init_stability(rating);
                attempt.review_state = if rating == RATING_AGAIN {
                    ReviewState::Learning
                } else {
                    ReviewState::Review
                };
            },
            ReviewState::Learning | ReviewState::Relearning => {
                let last_d = attempt.difficulty;
                let last_s = attempt.stability;
                attempt.difficulty = self.next_difficulty(last_d, rating);
                attempt.stability = self.short_term_stability(last_s, rating);
                attempt.review_state = if rating > RATING_AGAIN {
                    ReviewState::Review
                } else {
                    ReviewState::Relearning
                };
            },
            ReviewState::Review => {
                let last_d = attempt.difficulty;
                let last_s = attempt.stability;
                let retrievability = self.forgetting_curve(attempt.elapsed_days, last_s);
                attempt.difficulty = self.next_difficulty(last_d, rating);
                attempt.stability = self.next_recall_stability(
                    last_d,
                    last_s,
                    retrievability,
                    decay,
                    rating,
                );
                attempt.review_state = if rating == RATING_AGAIN {
                    ReviewState::Relearning
                } else {
                    ReviewState::Review
                };
            },
        }
        attempt.scheduled_days = self.next_interval(attempt.stability);
    }

    /// The mastery score of a history, newest attempt first, as a fraction
    /// of a hundred points; nothing for a history whose figures are beyond
    /// the limits of `MasteryFigures::mastery_score`. A history without
    /// attempts scores 0.
    pub fn calculate_mastery(&self, attempts: &[Attempt]) -> (score: Option<Ratio>)
        ensures
            score is Some <==> tally_of(attempts@).within_limits(),
            score matches Some(ratio) ==> (ratio.numerator as int, ratio.denominator as int)
                == tally_of(attempts@).mastery_fraction() && ratio.denominator > 0,
            attempts@.len() == 0 ==> score == Some(Ratio { numerator: 0, denominator: 1 }),
    {
        let refs = refs_of(attempts);
        let figures = figures(&refs);
        figures.mastery_score()
    }

    /// The Brier score of a history: the mean of the squared distances
    /// between confidence, as a share of full confidence, and outcome; one
    /// half for a history without attempts.
    pub fn calculate_brier_score(&self, attempts: &[Attempt]) -> (score: Ratio)
        ensures
            (score.numerator as int, score.denominator as int) == brier_fraction(
                tally_of(attempts@),
            ),
            score.denominator > 0,
            attempts@.len() == 0 ==> score == (Ratio { numerator: 1, denominator: 2 }),
            attempts@.len() > 0 ==> score.numerator == total(attempts@, squared_residual())
                && score.denominator == RESIDUAL_SCALE * attempts@.len(),
    {
        let refs = refs_of(attempts);
        let figures = figures(&refs);
        brier_score(&figures)
    }
}

/// A product of two numbers whose sizes are known.
fn scaled(a: i128, b: i128, Ghost(most_a): Ghost<int>, Ghost(most_b): Ghost<int>) -> (result: i128)
    requires
        -most_a <= a <= most_a,
        -most_b <= b <= most_b,
        most_a * most_b <= 0x4000_0000_0000_0000_0000_0000_0000_0000,
    ensures
        result == a * b,
        -(most_a * most_b) <= result <= most_a * most_b,
{
    assert(-(most_a * most_b) <= a * b <= most_a * most_b) by (nonlinear_arith)
        requires
            -most_a <= a <= most_a,
            -most_b <= b <= most_b,
    ;
    a * b
}

/// A difficulty, held between 1 and 10.
fn constrain(difficulty: i128) -> (constrained: i64)
    ensures
        constrained == held_between(
            difficulty as int,
            MIN_DIFFICULTY as int,
            MAX_DIFFICULTY as int,
        ),
        MIN_DIFFICULTY <= constrained <= MAX_DIFFICULTY,
{
    if difficulty < MIN_DIFFICULTY as i128 {
        MIN_DIFFICULTY
    } else if difficulty > MAX_DIFFICULTY as i128 {
        MAX_DIFFICULTY
    } else {
        difficulty as i64
    }
}

/// Whatever the weights, a new item starts with a difficulty between 1 and
/// 10 and with a stability of at least a tenth of a day, and whatever the
/// state of an item, its difficulty after an answer is between 1 and 10.
pub proof fn difficulty_and_initial_stability_are_bounded(
    scheduler: FSRSScheduler,
    attempt: Attempt,
    rating: int,
)
    ensures
        MIN_DIFFICULTY <= scheduler.spec_difficulty_after(attempt, rating) <= MAX_DIFFICULTY,
        scheduler.spec_init_stability(rating) >= MIN_INITIAL_STABILITY,
{
}

/// Whatever the stability, the interval is at least one day and at most the
/// longest interval.
pub proof fn interval_is_bounded(scheduler: FSRSScheduler, stability: int)
    requires
        scheduler.params.maximum_interval >= 1,
    ensures
        1 <= scheduler.spec_next_interval(stability) <= scheduler.params.maximum_interval,
{
}

/// The weights under which a better rating never leaves less stability: a
/// better rating starts a new item with no less, short-term growth is not
/// negative, a rating of 2 takes from the growth and a rating of 4 adds to
/// it.
pub open spec fn ratings_ordered(params: FSRSParameters) -> bool {
    &&& params.initial_stabilities_ordered()
    &&& params.w@[11] >= 0
    &&& 0 <= params.w@[15] <= UNIT <= params.w@[16]
}

/// With difficulty and elapsed days held fixed, a better rating never leaves
/// less stability, under weights that order the ratings, for an item whose
/// stability is not negative and, under review, grows by nothing negative.
/// The one pair of ratings left out is 1 and 2 for an item under review where
/// a rating of 2 has a penalty: there the wrong answer keeps the growth that
/// the penalty takes away.
pub proof fn stability_grows_with_rating(
    scheduler: FSRSScheduler,
    attempt: Attempt,
    decay: int,
    lower: int,
    higher: int,
)
    requires
        ratings_ordered(scheduler.params),
        RATING_AGAIN <= lower <= higher <= RATING_EASY,
        attempt.stability >= 0,
        attempt.review_state == ReviewState::Review ==> {
            &&& lower == RATING_AGAIN && higher == RATING_HARD ==> scheduler.params.w@[15] == UNIT
            &&& scheduler.spec_recall_growth(
                attempt.difficulty as int,
                scheduler.spec_forgetting_curve(
                    attempt.elapsed_days as int,
                    attempt.stability as int,
                ),
                decay,
            ) >= 0
        },
    ensures
        scheduler.spec_stability_after(attempt, lower, decay) <= scheduler.spec_stability_after(
            attempt,
            higher,
            decay,
        ),
{
    let w = scheduler.params.w@;
    let stability = attempt.stability as int;
    match attempt.review_state {
        ReviewState::New => {},
        ReviewState::Learning | ReviewState::Relearning => {
            assert(w[11] * (lower - 2) <= w[11] * (higher - 2)) by (nonlinear_arith)
                requires
                    w[11] >= 0,
                    lower <= higher,
            ;
            times_grows(stability, UNIT + w[11] * (lower - 2), UNIT + w[11] * (higher - 2));
        },
        ReviewState::Review => {
            let growth = scheduler.spec_recall_growth(
                attempt.difficulty as int,
                scheduler.spec_forgetting_curve(
                    attempt.elapsed_days as int,
                    attempt.stability as int,
                ),
                decay,
            );
            let grown = times(stability, growth);
            times_is_not_negative(stability, growth);
            let low_penalty = scheduler.spec_hard_penalty(lower);
            let high_penalty = scheduler.spec_hard_penalty(higher);
            let low_bonus = scheduler.spec_easy_bonus(lower);
            let high_bonus = scheduler.spec_easy_bonus(higher);
            times_grows(grown, low_penalty, high_penalty);
            times_is_not_negative(grown, low_penalty);
            times_grows(times(grown, low_penalty), low_bonus, high_bonus);
            times_grows_left(
                times(grown, low_penalty),
                times(grown, high_penalty),
                high_bonus,
            );
        },
    }
}

} // verus!
