//! Mastery and calibration: what the attempts on a concept say about how
//! well it is known.
//!
//! Every figure here is exact. Scores are fractions of two integers, so that
//! nothing is rounded before the caller decides how to show them.

use vstd::prelude::*;

use crate::models::{Attempt, Concept, ConceptMastery, ItemHistory, MasteryFigures, Ratio};

verus! {

/// Highest confidence that a learner can report.
pub const FULL_CONFIDENCE: i32 = 5;

/// The square of full confidence: squared residuals are counted in
/// twenty-fifths.
pub const RESIDUAL_SCALE: i128 = 25;

/// How many of the newest attempts count as recent.
pub const RECENT_ATTEMPTS: usize = 5;

/// The sum of a measure over attempts.
pub open spec fn total(attempts: Seq<Attempt>, measure: spec_fn(Attempt) -> int) -> int
    decreases attempts.len(),
{
    if attempts.len() == 0 {
        0
    } else {
        total(attempts.drop_last(), measure) + measure(attempts.last())
    }
}

/// One for a correct attempt, nothing for a wrong one.
pub open spec fn correctness() -> spec_fn(Attempt) -> int {
    |attempt: Attempt|
        if attempt.is_correct {
            1int
        } else {
            0int
        }
}

/// The confidence of an attempt.
pub open spec fn confidence() -> spec_fn(Attempt) -> int {
    |attempt: Attempt| attempt.confidence as int
}

/// The stability on an attempt, in millionths of a day.
pub open spec fn stability() -> spec_fn(Attempt) -> int {
    |attempt: Attempt| attempt.stability as int
}

/// How far the confidence of an attempt is from what its outcome called for,
/// in fifths: full confidence for a correct answer, none for a wrong one.
pub open spec fn residual(attempt: Attempt) -> int {
    if attempt.is_correct {
        attempt.confidence - FULL_CONFIDENCE
    } else {
        attempt.confidence as int
    }
}

/// The square of the residual of an attempt.
pub open spec fn squared_residual() -> spec_fn(Attempt) -> int {
    |attempt: Attempt| residual(attempt) * residual(attempt)
}

/// The newest attempts of a history that is ordered newest first: the first
/// five, or all of them where there are fewer.
pub open spec fn recent(attempts: Seq<Attempt>) -> Seq<Attempt> {
    if attempts.len() <= RECENT_ATTEMPTS {
        attempts
    } else {
        attempts.take(RECENT_ATTEMPTS as int)
    }
}

/// The figures of a history as numbers without bounds: what `MasteryFigures`
/// stands for.
pub struct Tally {
    /// Number of attempts.
    pub attempts: int,
    /// Number of correct attempts.
    pub correct: int,
    /// Number of recent attempts.
    pub recent_attempts: int,
    /// Number of correct attempts among the recent ones.
    pub recent_correct: int,
    /// Sum of the confidences.
    pub confidence_sum: int,
    /// Sum of the stabilities, in millionths of a day.
    pub stability_sum: int,
    /// Sum of the squared residuals, in twenty-fifths.
    pub squared_residuals: int,
}

impl View for MasteryFigures {
    type V = Tally;

    open spec fn view(&self) -> Tally {
        Tally {
            attempts: self.attempts as int,
            correct: self.correct as int,
            recent_attempts: self.recent_attempts as int,
            recent_correct: self.recent_correct as int,
            confidence_sum: self.confidence_sum as int,
            stability_sum: self.stability_sum as int,
            squared_residuals: self.squared_residuals as int,
        }
    }
}

/// The figures of a history, newest attempt first.
pub open spec fn tally_of(attempts: Seq<Attempt>) -> Tally {
    Tally {
        attempts: attempts.len() as int,
        correct: total(attempts, correctness()),
        recent_attempts: recent(attempts).len() as int,
        recent_correct: total(recent(attempts), correctness()),
        confidence_sum: total(attempts, confidence()),
        stability_sum: total(attempts, stability()),
        squared_residuals: total(attempts, squared_residual()),
    }
}

/// The sum over a history grows by the measure of the attempt that is added.
proof fn lemma_total_step(attempts: Seq<Attempt>, measure: spec_fn(Attempt) -> int, i: int)
    requires
        0 <= i < attempts.len(),
    ensures
        total(attempts.take(i + 1), measure) == total(attempts.take(i), measure) + measure(
            attempts[i],
        ),
{
    assert(attempts.take(i + 1).drop_last() =~= attempts.take(i));
}

/// The square of a residual is small.
proof fn lemma_residual_bound(attempt: Attempt)
    ensures
        0 <= residual(attempt) * residual(attempt) <= 0x4000_0005_0000_0019,
{
    let r = residual(attempt);
    assert(0 <= r * r <= 0x8000_0005 * 0x8000_0005) by (nonlinear_arith)
        requires
            -0x8000_0005 <= r <= 0x8000_0005,
    ;
}

/// The figures of a history.
pub fn figures(attempts: &Vec<&Attempt>) -> (figures: MasteryFigures)
    ensures
        figures@ == tally_of(attempts@.unref()),
{
    let ghost all = attempts@.unref();
    let mut correct: usize = 0;
    let mut recent_attempts: usize = 0;
    let mut recent_correct: usize = 0;
    let mut confidence_sum: i128 = 0;
    let mut stability_sum: i128 = 0;
    let mut squared_residuals: i128 = 0;
    let mut i: usize = 0;
    while i < attempts.len()
        invariant
            i <= attempts.len(),
            all == attempts@.unref(),
            correct == total(all.take(i as int), correctness()),
            correct <= i,
            recent_attempts == recent(all.take(i as int)).len(),
            recent_correct == total(recent(all.take(i as int)), correctness()),
            recent_correct <= recent_attempts <= RECENT_ATTEMPTS,
            confidence_sum == total(all.take(i as int), confidence()),
            -0x8000_0000 * i <= confidence_sum <= 0x8000_0000 * i,
            stability_sum == total(all.take(i as int), stability()),
            -0x8000_0000_0000_0000 * i <= stability_sum <= 0x8000_0000_0000_0000 * i,
            squared_residuals == total(all.take(i as int), squared_residual()),
            0 <= squared_residuals <= 0x4000_0005_0000_0019 * i,
        decreases attempts.len() - i,
    {
        let attempt = attempts[i];
        proof {
            lemma_total_step(all, correctness(), i as int);
            lemma_total_step(all, confidence(), i as int);
            lemma_total_step(all, stability(), i as int);
            lemma_total_step(all, squared_residual(), i as int);
            lemma_residual_bound(*attempt);
            if i >= RECENT_ATTEMPTS {
                assert(recent(all.take(i + 1)) =~= recent(all.take(i as int)));
            }
        }
        if attempt.is_correct {
            correct = correct + 1;
        }
        if i < RECENT_ATTEMPTS {
            recent_attempts = recent_attempts + 1;
            if attempt.is_correct {
                recent_correct = recent_correct + 1;
            }
        }
        confidence_sum = confidence_sum + attempt.confidence as i128;
        stability_sum = stability_sum + attempt.stability as i128;
        let miss: i128 = if attempt.is_correct {
            attempt.confidence as i128 - FULL_CONFIDENCE as i128
        } else {
            attempt.confidence as i128
        };
        squared_residuals = squared_residuals + miss * miss;
        i = i + 1;
    }
    assert(all.take(i as int) == all);
    MasteryFigures {
        attempts: attempts.len(),
        correct,
        recent_attempts,
        recent_correct,
        confidence_sum,
        stability_sum,
        squared_residuals,
    }
}

/// The attempts of a list, each by reference.
pub fn refs_of(attempts: &[Attempt]) -> (refs: Vec<&Attempt>)
    ensures
        refs@.unref() == attempts@,
{
    let mut refs: Vec<&Attempt> = Vec::new();
    let mut i: usize = 0;
    while i < attempts.len()
        invariant
            i <= attempts.len(),
            refs@.unref() =~= attempts@.take(i as int),
        decreases attempts.len() - i,
    {
        let ghost before = refs@;
        refs.push(&attempts[i]);
        assert(refs@.unref() =~= before.unref().push(attempts@[i as int]));
        i = i + 1;
    }
    refs
}

/// Every confidence of a history lies between none and full.
pub open spec fn confidences_in_range(attempts: Seq<Attempt>) -> bool {
    forall|i: int|
        0 <= i < attempts.len() ==> 0 <= (#[trigger] attempts[i]).confidence <= FULL_CONFIDENCE
}

/// The Brier score of a history with these figures, as numerator and
/// denominator: the mean of the squared distances between confidence, taken
/// as a share of full confidence, and outcome. A history without attempts
/// scores one half.
pub open spec fn brier_fraction(figures: Tally) -> (int, int) {
    if figures.attempts == 0 {
        (1, 2)
    } else {
        (figures.squared_residuals, RESIDUAL_SCALE * figures.attempts)
    }
}

/// The Brier score of a history with these figures.
pub fn brier_score(figures: &MasteryFigures) -> (score: Ratio)
    ensures
        (score.numerator as int, score.denominator as int) == brier_fraction(figures@),
        score.denominator > 0,
{
    if figures.attempts == 0 {
        Ratio { numerator: 1, denominator: 2 }
    } else {
        Ratio {
            numerator: figures.squared_residuals,
            denominator: RESIDUAL_SCALE * (figures.attempts as i128),
        }
    }
}

/// With every confidence between none and full, the squared residuals of a
/// history come to at most twenty-five for each attempt, so that its Brier
/// score is at most one.
pub proof fn brier_is_at_most_one(attempts: Seq<Attempt>)
    requires
        confidences_in_range(attempts),
    ensures
        0 <= total(attempts, squared_residual()) <= RESIDUAL_SCALE * attempts.len(),
    decreases attempts.len(),
{
    if attempts.len() > 0 {
        let front = attempts.drop_last();
        assert forall|i: int| 0 <= i < front.len() implies 0 <= (#[trigger] front[i]).confidence
            <= FULL_CONFIDENCE by {
            assert(front[i] == attempts[i]);
        }
        brier_is_at_most_one(front);
        assert(attempts.last() == attempts[attempts.len() - 1]);
        let r = residual(attempts.last());
        assert(0 <= r * r <= 25) by (nonlinear_arith)
            requires
                -5 <= r <= 5,
        ;
    }
}

/// Where every attempt was answered with exactly the confidence that its
/// outcome called for, full for a correct answer and none for a wrong one,
/// the squared residuals come to nothing, so that the Brier score is 0.
pub proof fn brier_of_perfect_calibration(attempts: Seq<Attempt>)
    requires
        forall|i: int| 0 <= i < attempts.len() ==> residual(#[trigger] attempts[i]) == 0,
    ensures
        total(attempts, squared_residual()) == 0,
    decreases attempts.len(),
{
    if attempts.len() > 0 {
        let front = attempts.drop_last();
        assert forall|i: int| 0 <= i < front.len() implies residual(#[trigger] front[i]) == 0 by {
            assert(front[i] == attempts[i]);
        }
        brier_of_perfect_calibration(front);
        assert(attempts.last() == attempts[attempts.len() - 1]);
        assert(residual(attempts.last()) == 0);
    }
}

/// Most attempts of a history whose mastery score this library works out.
pub const MOST_ATTEMPTS: usize = 16_777_216;

/// Largest sum of stabilities, in millionths of a day and to either side of
/// zero, of a history whose mastery score this library works out.
pub const MOST_STABILITY: i128 = 0x4000_0000_0000_0000;

/// The highest mastery score.
pub const FULL_MASTERY: i128 = 100;

/// Points of the base score for answering everything correctly.
pub const ACCURACY_POINTS: i128 = 60;

/// Millionths of a day of mean stability that are worth one point of the
/// base score: a hundred days are worth twenty points.
pub const STABILITY_PER_POINT: i128 = 5_000_000;

/// Tenths of the calibrated score that a history keeps whatever its Brier
/// score is; the other tenths go by how far the Brier score is below one.
pub const CALIBRATION_FLOOR_TENTHS: i128 = 7;

/// Tenths of the calibrated score in the final score.
pub const CALIBRATED_TENTHS: i128 = 7;

/// Points of the final score for answering every recent attempt correctly:
/// three tenths of a hundred, raised by half.
pub const RECENCY_POINTS: i128 = 45;

/// The denominator that the terms of a mastery score share, for one attempt
/// and one recent attempt: ten, for the tenths of the calibrated score, times
/// the millionths of a day in a point, times the 250 that the calibration
/// multiplier is counted in.
pub const SCORE_SCALE: i128 = 12_500_000_000;

impl Tally {
    /// No count is below nothing.
    pub open spec fn well_formed(self) -> bool {
        &&& 0 <= self.attempts
        &&& 0 <= self.correct
        &&& 0 <= self.recent_attempts
        &&& 0 <= self.recent_correct
    }

    /// The figures are those of some history that is small enough for its
    /// mastery score to be worked out in 128 bits.
    pub open spec fn within_limits(self) -> bool {
        &&& self.well_formed()
        &&& self.correct <= self.attempts <= MOST_ATTEMPTS
        &&& self.recent_correct <= self.recent_attempts <= RECENT_ATTEMPTS
        &&& -MOST_STABILITY <= self.stability_sum <= MOST_STABILITY
        &&& 0 <= self.squared_residuals
    }

    /// The base score, times the attempts and the millionths of a day in a
    /// point: sixty points by the share of correct attempts, and a point for
    /// every five days of mean stability.
    pub open spec fn base_scaled(self) -> int {
        ACCURACY_POINTS * (STABILITY_PER_POINT * self.correct) + self.stability_sum
    }

    /// The calibration multiplier, times 250 and the attempts: seven tenths,
    /// and three tenths of what the Brier score leaves of one, a Brier score
    /// above one leaving nothing.
    pub open spec fn calibration_scaled(self) -> int {
        let kept = RESIDUAL_SCALE * self.attempts - self.squared_residuals;
        CALIBRATION_FLOOR_TENTHS * (RESIDUAL_SCALE * self.attempts) + 3 * if kept > 0 {
            kept
        } else {
            0
        }
    }

    /// The number that the recent correct attempts are a share of: the number
    /// of recent attempts, and one where there is none.
    pub open spec fn recent_share_of(self) -> int {
        if self.recent_attempts == 0 {
            1
        } else {
            self.recent_attempts
        }
    }

    /// The mastery score before it is held at a hundred, as numerator and
    /// denominator: seven tenths of the base score times the calibration
    /// multiplier, and forty-five points by the share of correct attempts
    /// among the recent ones.
    pub open spec fn raw_mastery(self) -> (int, int) {
        (
            CALIBRATED_TENTHS * self.base_scaled() * self.calibration_scaled()
                * self.recent_share_of() + RECENCY_POINTS * self.recent_correct * SCORE_SCALE
                * self.attempts * self.attempts,
            SCORE_SCALE * self.attempts * self.attempts * self.recent_share_of(),
        )
    }

    /// The mastery score, as numerator and denominator: nothing for a history
    /// without attempts, and otherwise the raw score, held at a hundred.
    pub open spec fn mastery_fraction(self) -> (int, int) {
        if self.attempts == 0 {
            (0, 1)
        } else if self.raw_mastery().0 > FULL_MASTERY * self.raw_mastery().1 {
            (FULL_MASTERY as int, 1)
        } else {
            self.raw_mastery()
        }
    }
}

impl MasteryFigures {
    /// Whether the figures are within the limits of `mastery_score`.
    pub fn is_within_limits(&self) -> (ok: bool)
        ensures
            ok == self@.within_limits(),
    {
        self.correct <= self.attempts && self.attempts <= MOST_ATTEMPTS && self.recent_correct
            <= self.recent_attempts && self.recent_attempts <= RECENT_ATTEMPTS && -MOST_STABILITY
            <= self.stability_sum && self.stability_sum <= MOST_STABILITY && 0
            <= self.squared_residuals
    }

    /// The mastery score of a history with these figures, or nothing where
    /// the figures are beyond the limits.
    pub fn mastery_score(&self) -> (score: Option<Ratio>)
        ensures
            score is Some <==> self@.within_limits(),
            score matches Some(ratio) ==> (ratio.numerator as int, ratio.denominator as int)
                == self@.mastery_fraction() && ratio.denominator > 0,
    {
        if !self.is_within_limits() {
            return None;
        }
        if self.attempts == 0 {
            return Some(Ratio { numerator: 0, denominator: 1 });
        }
        let n: i128 = self.attempts as i128;
        let correct: i128 = self.correct as i128;
        let base: i128 = ACCURACY_POINTS * (STABILITY_PER_POINT * correct) + self.stability_sum;
        let kept: i128 = RESIDUAL_SCALE * n - self.squared_residuals;
        let calibration: i128 = CALIBRATION_FLOOR_TENTHS * (RESIDUAL_SCALE * n) + 3 * if kept > 0 {
            kept
        } else {
            0
        };
        let share_of: i128 = if self.recent_attempts == 0 {
            1
        } else {
            self.recent_attempts as i128
        };
        let recent_correct: i128 = self.recent_correct as i128;
        proof {
            lemma_product_bound(
                base as int,
                calibration as int,
                0x8000_0000_0000_0000,
                0x1_0000_0000,
            );
            lemma_product_bound(
                CALIBRATED_TENTHS * (base * calibration),
                share_of as int,
                0x38_0000_0000_0000_0000_0000_0000,
                5,
            );
            lemma_product_bound(n as int, n as int, 0x100_0000, 0x100_0000);
            lemma_product_bound(recent_correct as int, n * n, 5, 0x1_0000_0000_0000);
            lemma_product_bound(share_of as int, n * n, 5, 0x1_0000_0000_0000);
        }
        let weighed: i128 = CALIBRATED_TENTHS * (base * calibration) * share_of;
        let squared: i128 = n * n;
        let recency: i128 = RECENCY_POINTS * SCORE_SCALE * (recent_correct * squared);
        let numerator: i128 = weighed + recency;
        let denominator: i128 = SCORE_SCALE * (share_of * squared);
        proof {
            lemma_raw_mastery(self@, base as int, calibration as int, share_of as int);
            assert(squared >= 1) by (nonlinear_arith)
                requires
                    squared == n * n,
                    n >= 1,
            ;
            assert(share_of * squared >= 1) by (nonlinear_arith)
                requires
                    squared >= 1,
                    share_of >= 1,
            ;
        }
        if numerator > FULL_MASTERY * denominator {
            Some(Ratio { numerator: FULL_MASTERY, denominator: 1 })
        } else {
            Some(Ratio { numerator, denominator })
        }
    }
}

/// A product is no further from zero than the product of the bounds of its
/// factors.
proof fn lemma_product_bound(a: int, b: int, most_a: int, most_b: int)
    requires
        -most_a <= a <= most_a,
        -most_b <= b <= most_b,
    ensures
        -(most_a * most_b) <= a * b <= most_a * most_b,
{
    assert(-(most_a * most_b) <= a * b <= most_a * most_b) by (nonlinear_arith)
        requires
            -most_a <= a <= most_a,
            -most_b <= b <= most_b,
    ;
}

/// The raw score, with its products taken in the order in which
/// `mastery_score` takes them.
proof fn lemma_raw_mastery(figures: Tally, base: int, calibration: int, share_of: int)
    requires
        base == figures.base_scaled(),
        calibration == figures.calibration_scaled(),
        share_of == figures.recent_share_of(),
    ensures
        figures.raw_mastery().0 == CALIBRATED_TENTHS * (base * calibration) * share_of
            + RECENCY_POINTS * SCORE_SCALE * (figures.recent_correct * (figures.attempts
            * figures.attempts)),
        figures.raw_mastery().1 == SCORE_SCALE * (share_of * (figures.attempts * figures.attempts)),
{
    let n = figures.attempts as int;
    let r = figures.recent_correct as int;
    assert(7 * base * calibration * share_of == 7 * (base * calibration) * share_of)
        by (nonlinear_arith);
    assert(45 * r * 12_500_000_000 * n * n == 45 * 12_500_000_000 * (r * (n * n)))
        by (nonlinear_arith);
    assert(12_500_000_000 * n * n * share_of == 12_500_000_000 * (share_of * (n * n)))
        by (nonlinear_arith);
}

/// One fraction is no greater than another. Both denominators are positive.
pub open spec fn at_most(lower: (int, int), higher: (int, int)) -> bool {
    lower.0 * higher.1 <= higher.0 * lower.1
}

/// Holding everything else fixed, a history with more correct attempts has
/// no lower mastery score.
pub proof fn mastery_grows_with_accuracy(lower: Tally, higher: Tally)
    requires
        lower.well_formed(),
        higher.well_formed(),
        lower.correct <= higher.correct,
        lower.attempts == higher.attempts,
        lower.recent_attempts == higher.recent_attempts,
        lower.recent_correct == higher.recent_correct,
        lower.confidence_sum == higher.confidence_sum,
        lower.stability_sum == higher.stability_sum,
        lower.squared_residuals == higher.squared_residuals,
    ensures
        at_most(lower.mastery_fraction(), higher.mastery_fraction()),
        lower.mastery_fraction().1 > 0,
        higher.mastery_fraction().1 > 0,
{
    if lower.attempts > 0 {
        let n = lower.attempts as int;
        let share_of = lower.recent_share_of();
        let calibration = lower.calibration_scaled();
        let below = lower.base_scaled();
        let above = higher.base_scaled();
        let recency = RECENCY_POINTS * lower.recent_correct * SCORE_SCALE * n * n;
        let unit = lower.raw_mastery().1;
        assert(unit > 0) by (nonlinear_arith)
            requires
                unit == 12_500_000_000 * n * n * share_of,
                n >= 1,
                share_of >= 1,
        ;
        assert(7 * below * calibration * share_of <= 7 * above * calibration * share_of)
            by (nonlinear_arith)
            requires
                below <= above,
                calibration >= 0,
                share_of >= 1,
        ;
        let low = lower.raw_mastery().0;
        let high = higher.raw_mastery().0;
        assert(low * unit <= high * unit) by (nonlinear_arith)
            requires
                low <= high,
                unit > 0,
        ;
    }
}

/// Every confidence of a history is one that a learner can state, from one
/// to full.
pub open spec fn confidences_stated(attempts: Seq<Attempt>) -> bool {
    forall|i: int|
        0 <= i < attempts.len() ==> 1 <= (#[trigger] attempts[i]).confidence <= FULL_CONFIDENCE
}

/// No stability of a history is below nothing.
pub open spec fn stabilities_not_negative(attempts: Seq<Attempt>) -> bool {
    forall|i: int| 0 <= i < attempts.len() ==> (#[trigger] attempts[i]).stability >= 0
}

/// `better` is the history `worse` with some of its wrong answers correct
/// and nothing else changed.
pub open spec fn answered_better(worse: Seq<Attempt>, better: Seq<Attempt>) -> bool {
    &&& worse.len() == better.len()
    &&& forall|i: int|
        0 <= i < worse.len() ==> {
            ||| #[trigger] better[i] == worse[i]
            ||| !worse[i].is_correct && better[i] == (Attempt { is_correct: true, ..worse[i] })
        }
}

/// What turning wrong answers into correct ones does to the sums of a
/// history: the correct answers grow in number, confidences and stabilities
/// sum to the same, and the squared residuals grow by fifteen at most for
/// every answer turned, a correct answer at the lowest confidence being
/// further from its outcome than a wrong one.
proof fn lemma_better_totals(worse: Seq<Attempt>, better: Seq<Attempt>)
    requires
        answered_better(worse, better),
        confidences_stated(worse),
    ensures
        0 <= total(worse, correctness()) <= total(better, correctness()),
        total(better, confidence()) == total(worse, confidence()),
        total(better, stability()) == total(worse, stability()),
        total(better, squared_residual()) - total(worse, squared_residual()) <= 15 * (total(
            better,
            correctness(),
        ) - total(worse, correctness())),
        0 <= total(worse, squared_residual()) <= RESIDUAL_SCALE * worse.len(),
        0 <= total(better, squared_residual()) <= RESIDUAL_SCALE * better.len(),
        stabilities_not_negative(worse) ==> total(worse, stability()) >= 0,
    decreases worse.len(),
{
    if worse.len() > 0 {
        let front = worse.drop_last();
        let front_better = better.drop_last();
        assert forall|i: int| 0 <= i < front.len() implies {
            ||| #[trigger] front_better[i] == front[i]
            ||| !front[i].is_correct && front_better[i] == (Attempt {
                is_correct: true,
                ..front[i]
            })
        } by {
            assert(front[i] == worse[i]);
            assert(front_better[i] == better[i]);
        }
        assert forall|i: int| 0 <= i < front.len() implies 1 <= (#[trigger] front[i]).confidence
            <= FULL_CONFIDENCE by {
            assert(front[i] == worse[i]);
        }
        if stabilities_not_negative(worse) {
            assert forall|i: int| 0 <= i < front.len() implies (#[trigger] front[i]).stability
                >= 0 by {
                assert(front[i] == worse[i]);
            }
        }
        lemma_better_totals(front, front_better);
        let was = worse.last();
        let is = better.last();
        assert(is == better[worse.len() - 1]);
        assert(was == worse[worse.len() - 1]);
        let q = was.confidence as int;
        assert(1 <= q <= 5);
        assert(0 <= residual(was) * residual(was) <= 25) by (nonlinear_arith)
            requires
                -5 <= residual(was) <= 5,
        ;
        assert(0 <= residual(is) * residual(is) <= 25) by (nonlinear_arith)
            requires
                -5 <= residual(is) <= 5,
        ;
        if is != was {
            assert(residual(was) == q);
            assert(residual(is) == q - 5);
            assert((q - 5) * (q - 5) - q * q == 25 - 10 * q) by (nonlinear_arith);
        }
    }
}

/// The order of two mastery scores whose figures differ as those of a
/// history and of the same history with some wrong answers correct.
proof fn lemma_tally_order(lower: Tally, higher: Tally)
    requires
        lower.well_formed(),
        higher.well_formed(),
        lower.attempts == higher.attempts,
        lower.recent_attempts == higher.recent_attempts,
        lower.stability_sum == higher.stability_sum,
        lower.stability_sum >= 0,
        lower.correct <= higher.correct,
        lower.recent_correct <= higher.recent_correct,
        0 <= lower.squared_residuals <= RESIDUAL_SCALE * lower.attempts,
        0 <= higher.squared_residuals <= RESIDUAL_SCALE * higher.attempts,
        higher.squared_residuals - lower.squared_residuals <= 15 * (higher.correct
            - lower.correct),
    ensures
        at_most(lower.mastery_fraction(), higher.mastery_fraction()),
        lower.mastery_fraction().1 > 0,
        higher.mastery_fraction().1 > 0,
{
    if lower.attempts > 0 {
        let n = lower.attempts;
        let share_of = lower.recent_share_of();
        let x = lower.base_scaled();
        let x_up = higher.base_scaled();
        let y = lower.calibration_scaled();
        let y_up = higher.calibration_scaled();
        let turned = higher.correct - lower.correct;
        let further = higher.squared_residuals - lower.squared_residuals;
        let square = n * n;
        let unit = lower.raw_mastery().1;
        let low = lower.raw_mastery().0;
        let high = higher.raw_mastery().0;
        assert(higher.recent_share_of() == share_of);
        assert(higher.raw_mastery().1 == unit);
        assert(x_up == x + 300_000_000 * turned);
        assert(x >= 0);
        assert(y == 250 * n - 3 * lower.squared_residuals);
        assert(y_up == y - 3 * further);
        assert(y_up >= 175 * n);
        assert(square >= 1) by (nonlinear_arith)
            requires
                square == n * n,
                n >= 1,
        ;
        assert(unit == 12_500_000_000 * square * share_of) by (nonlinear_arith)
            requires
                unit == 12_500_000_000 * n * n * share_of,
                square == n * n,
        ;
        assert(unit > 0) by (nonlinear_arith)
            requires
                unit == 12_500_000_000 * square * share_of,
                square >= 1,
                share_of >= 1,
        ;
        let recency = 45 * lower.recent_correct * 12_500_000_000 * n * n;
        let recency_up = 45 * higher.recent_correct * 12_500_000_000 * n * n;
        assert(0 <= recency <= recency_up) by (nonlinear_arith)
            requires
                recency == 45 * lower.recent_correct * 12_500_000_000 * n * n,
                recency_up == 45 * higher.recent_correct * 12_500_000_000 * n * n,
                0 <= lower.recent_correct <= higher.recent_correct,
                n >= 1,
        ;
        assert(low == 7 * (x * y) * share_of + recency) by (nonlinear_arith)
            requires
                low == 7 * x * y * share_of + recency,
        ;
        assert(high == 7 * (x_up * y_up) * share_of + recency_up) by (nonlinear_arith)
            requires
                high == 7 * x_up * y_up * share_of + recency_up,
        ;
        if x_up * y_up >= x * y {
            assert(7 * (x * y) * share_of <= 7 * (x_up * y_up) * share_of) by (nonlinear_arith)
                requires
                    x * y <= x_up * y_up,
                    share_of >= 1,
            ;
            assert(low <= high);
        } else {
            assert(x_up * y_up == x * y - 3 * further * x + 300_000_000 * turned * y_up)
                by (nonlinear_arith)
                requires
                    x_up == x + 300_000_000 * turned,
                    y_up == y - 3 * further,
            ;
            assert(300_000_000 * turned * y_up >= 0) by (nonlinear_arith)
                requires
                    turned >= 0,
                    y_up >= 0,
            ;
            assert(further * x > 0) by (nonlinear_arith)
                requires
                    x_up * y_up < x * y,
                    x_up * y_up == x * y - 3 * further * x + 300_000_000 * turned * y_up,
                    300_000_000 * turned * y_up >= 0,
            ;
            assert(further > 0 && x > 0) by (nonlinear_arith)
                requires
                    further * x > 0,
                    x >= 0,
            ;
            assert(turned >= 1);
            assert(3 * further * x <= 45 * turned * x) by (nonlinear_arith)
                requires
                    further <= 15 * turned,
                    x >= 0,
            ;
            assert(turned * (45 * x - 300_000_000 * y_up) > 0) by (nonlinear_arith)
                requires
                    300_000_000 * turned * y_up < 3 * further * x,
                    3 * further * x <= 45 * turned * x,
            ;
            assert(45 * x > 300_000_000 * y_up) by (nonlinear_arith)
                requires
                    turned * (45 * x - 300_000_000 * y_up) > 0,
                    turned >= 1,
            ;
            assert(45 * x_up > 300_000_000 * y_up);
            assert(45 * (x_up * y_up) >= 300_000_000 * (y_up * y_up)) by (nonlinear_arith)
                requires
                    45 * x_up > 300_000_000 * y_up,
                    y_up >= 0,
            ;
            assert(y_up * y_up >= 30_625 * square) by (nonlinear_arith)
                requires
                    y_up >= 175 * n,
                    n >= 1,
                    square == n * n,
            ;
            assert(7 * (x_up * y_up) >= 100 * (12_500_000_000 * square));
            assert(7 * (x_up * y_up) * share_of >= 100 * (12_500_000_000 * square) * share_of)
                by (nonlinear_arith)
                requires
                    7 * (x_up * y_up) >= 100 * (12_500_000_000 * square),
                    share_of >= 1,
            ;
            assert(100 * (12_500_000_000 * square) * share_of == 100 * unit) by (nonlinear_arith)
                requires
                    unit == 12_500_000_000 * square * share_of,
            ;
            assert(high >= 100 * unit);
        }
        assert(low <= high || high >= 100 * unit);
        if low <= high {
            assert(low * unit <= high * unit) by (nonlinear_arith)
                requires
                    low <= high,
                    unit > 0,
            ;
        }
    }
}

/// A history in which some wrong answers are correct, and nothing else is
/// different, has no lower mastery score, where every confidence is one that
/// a learner can state and no stability is below nothing.
pub proof fn mastery_grows_with_correct_answers(worse: Seq<Attempt>, better: Seq<Attempt>)
    requires
        answered_better(worse, better),
        confidences_stated(worse),
        stabilities_not_negative(worse),
    ensures
        at_most(tally_of(worse).mastery_fraction(), tally_of(better).mastery_fraction()),
        tally_of(worse).mastery_fraction().1 > 0,
        tally_of(better).mastery_fraction().1 > 0,
{
    lemma_better_totals(worse, better);
    let near = recent(worse);
    let near_better = recent(better);
    assert forall|i: int| 0 <= i < near.len() implies {
        ||| #[trigger] near_better[i] == near[i]
        ||| !near[i].is_correct && near_better[i] == (Attempt { is_correct: true, ..near[i] })
    } by {
        assert(near[i] == worse[i]);
        assert(near_better[i] == better[i]);
    }
    assert forall|i: int| 0 <= i < near.len() implies 1 <= (#[trigger] near[i]).confidence
        <= FULL_CONFIDENCE by {
        assert(near[i] == worse[i]);
    }
    lemma_better_totals(near, near_better);
    lemma_tally_order(tally_of(worse), tally_of(better));
}

/// A mastery score is never above a hundred, and never below zero where the
/// stabilities do not sum to less than nothing.
pub proof fn mastery_is_bounded(figures: Tally)
    requires
        figures.well_formed(),
    ensures
        figures.mastery_fraction().1 > 0,
        figures.mastery_fraction().0 <= FULL_MASTERY * figures.mastery_fraction().1,
        figures.stability_sum >= 0 ==> figures.mastery_fraction().0 >= 0,
{
    if figures.attempts > 0 {
        let n = figures.attempts as int;
        let share_of = figures.recent_share_of();
        assert(figures.raw_mastery().1 > 0) by (nonlinear_arith)
            requires
                figures.raw_mastery().1 == 12_500_000_000 * n * n * share_of,
                n >= 1,
                share_of >= 1,
        ;
    }
}

/// The attempts that an item adds to the history of a concept: all of its
/// attempts where it names the concept, none where it does not.
pub open spec fn attempts_if_named(concept: Seq<char>) -> spec_fn(ItemHistory) -> Seq<Attempt> {
    |history: ItemHistory|
        if history.item.concept_texts().contains(concept) {
            history.attempts@
        } else {
            Seq::empty()
        }
}

/// The history of a concept: the attempts on the items that name it, item
/// after item, each item's attempts newest first.
pub open spec fn spec_concept_attempts(histories: Seq<ItemHistory>, concept: Seq<char>) -> Seq<
    Attempt,
> {
    histories.flat_map(attempts_if_named(concept))
}

/// The history of a concept.
pub fn concept_attempts<'a>(histories: &'a Vec<ItemHistory>, concept_id: &String) -> (gathered:
    Vec<&'a Attempt>)
    ensures
        gathered@.unref() == spec_concept_attempts(histories@, concept_id@),
{
    let mut gathered: Vec<&Attempt> = Vec::new();
    let mut i: usize = 0;
    while i < histories.len()
        invariant
            i <= histories.len(),
            gathered@.unref() =~= spec_concept_attempts(histories@.take(i as int), concept_id@),
        decreases histories.len() - i,
    {
        let history = &histories[i];
        let ghost done = gathered@.unref();
        proof {
            histories@.lemma_flat_map_take_append(attempts_if_named(concept_id@), i as int);
        }
        if history.item.names_concept(concept_id) {
            let mut j: usize = 0;
            while j < history.attempts.len()
                invariant
                    j <= history.attempts.len(),
                    gathered@.unref() =~= done + history.attempts@.take(j as int),
                decreases history.attempts.len() - j,
            {
                let ghost before = gathered@;
                gathered.push(&history.attempts[j]);
                proof {
                    assert(gathered@.unref() =~= before.unref().push(history.attempts@[j as int]));
                }
                j = j + 1;
            }
        }
        i = i + 1;
    }
    assert(histories@.take(i as int) == histories@);
    gathered
}

/// `report` is what the attempts on the items of `concept` come to.
pub open spec fn is_report_of(
    report: ConceptMastery,
    concept: Concept,
    histories: Seq<ItemHistory>,
) -> bool {
    let attempts = spec_concept_attempts(histories, concept.id@);
    &&& report.concept_id@ == concept.id@
    &&& report.concept_name@ == concept.name@
    &&& report.figures@ == tally_of(attempts)
    &&& report.figures.attempts == attempts.len()
    &&& report.figures.correct == total(attempts, correctness())
    &&& (report.brier_score.numerator as int, report.brier_score.denominator as int)
        == brier_fraction(tally_of(attempts))
    &&& report.mastery_score is Some <==> tally_of(attempts).within_limits()
    &&& report.mastery_score matches Some(score) ==> (
        score.numerator as int,
        score.denominator as int,
    ) == tally_of(attempts).mastery_fraction()
    &&& report.last_attempted == if attempts.len() > 0 {
        Some(attempts[0].attempted_at)
    } else {
        None
    }
    &&& report.trend@ == "stable"@
}

/// For every concept, in the order of `concepts`, what the attempts on the
/// items that name it come to.
pub fn get_concept_mastery(concepts: &Vec<Concept>, histories: &Vec<ItemHistory>) -> (reports: Vec<
    ConceptMastery,
>)
    ensures
        reports@.len() == concepts@.len(),
        forall|k: int|
            0 <= k < reports@.len() ==> is_report_of(
                #[trigger] reports@[k],
                concepts@[k],
                histories@,
            ),
{
    let mut reports: Vec<ConceptMastery> = Vec::new();
    let mut k: usize = 0;
    while k < concepts.len()
        invariant
            k <= concepts.len(),
            reports@.len() == k,
            forall|m: int|
                0 <= m < k ==> is_report_of(#[trigger] reports@[m], concepts@[m], histories@),
        decreases concepts.len() - k,
    {
        let concept = &concepts[k];
        let gathered = concept_attempts(histories, &concept.id);
        let figures = figures(&gathered);
        let last_attempted = if gathered.len() > 0 {
            Some(gathered[0].attempted_at)
        } else {
            None
        };
        let report = ConceptMastery {
            concept_id: concept.id.clone(),
            concept_name: concept.name.clone(),
            mastery_score: figures.mastery_score(),
            figures,
            brier_score: brier_score(&figures),
            last_attempted,
            trend: "stable".to_owned(),
        };
        reports.push(report);
        k = k + 1;
    }
    reports
}

} // verus!
