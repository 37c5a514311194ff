//! The discrete retrieval-phase scheduler.
//!
//! An answer moves an item one phase forward or one phase back, and the
//! phase it lands in says how long to wait for the next review.

use vstd::prelude::*;

use crate::clock::{now_millis, shown_by_clock, LATEST_MILLIS};
use crate::models::{Attempt, MetacognitiveReflection, SirPhase};

verus! {

/// Milliseconds in a day.
pub const MILLIS_PER_DAY: i64 = 86_400_000;

/// The span of days within which a phase asks for its next review.
#[derive(Debug, Clone, Copy, PartialEq, Eq, Structural)]
pub struct IntervalWindow {
    /// Wait after an answer that calls for an early review.
    pub shortest_days: u32,
    /// Wait after an answer that does not.
    pub longest_days: u32,
}

/// The policy table of the phase scheduler.
#[derive(Debug, Clone, Copy, PartialEq, Eq, Structural)]
pub struct SirParameters {
    pub encoding: IntervalWindow,
    pub short_term_retrieval: IntervalWindow,
    pub interleaved_retrieval: IntervalWindow,
    pub medium_spacing: IntervalWindow,
    pub integration_transfer: IntervalWindow,
    /// The lowest confidence that counts as confident.
    pub confident_from: i32,
}

impl SirParameters {
    /// The window of a phase.
    pub open spec fn spec_window(self, phase: SirPhase) -> IntervalWindow {
        match phase {
            SirPhase::Encoding => self.encoding,
            SirPhase::ShortTermRetrieval => self.short_term_retrieval,
            SirPhase::InterleavedRetrieval => self.interleaved_retrieval,
            SirPhase::MediumSpacing => self.medium_spacing,
            SirPhase::IntegrationTransfer => self.integration_transfer,
        }
    }

    /// No window ends before it starts, and no phase waits less than the
    /// phase before it.
    pub open spec fn well_formed(self) -> bool {
        &&& self.encoding.shortest_days <= self.encoding.longest_days
        &&& self.encoding.longest_days <= self.short_term_retrieval.shortest_days
        &&& self.short_term_retrieval.shortest_days <= self.short_term_retrieval.longest_days
        &&& self.short_term_retrieval.longest_days <= self.interleaved_retrieval.shortest_days
        &&& self.interleaved_retrieval.shortest_days <= self.interleaved_retrieval.longest_days
        &&& self.interleaved_retrieval.longest_days <= self.medium_spacing.shortest_days
        &&& self.medium_spacing.shortest_days <= self.medium_spacing.longest_days
        &&& self.medium_spacing.longest_days <= self.integration_transfer.shortest_days
        &&& self.integration_transfer.shortest_days <= self.integration_transfer.longest_days
    }

    /// The table that the scheduler uses unless it is given another: the same
    /// day for `Encoding`, then 1 to 2, 3 to 5, 7 to 10 and 14 to 30 days, and
    /// confidence from 3 of 5 upwards.
    pub open spec fn spec_standard() -> SirParameters {
        SirParameters {
            encoding: IntervalWindow { shortest_days: 0, longest_days: 0 },
            short_term_retrieval: IntervalWindow { shortest_days: 1, longest_days: 2 },
            interleaved_retrieval: IntervalWindow { shortest_days: 3, longest_days: 5 },
            medium_spacing: IntervalWindow { shortest_days: 7, longest_days: 10 },
            integration_transfer: IntervalWindow { shortest_days: 14, longest_days: 30 },
            confident_from: 3,
        }
    }

    /// The window of a phase.
    pub fn window(&self, phase: SirPhase) -> (window: IntervalWindow)
        ensures
            window == self.spec_window(phase),
    {
        match phase {
            SirPhase::Encoding => self.encoding,
            SirPhase::ShortTermRetrieval => self.short_term_retrieval,
            SirPhase::InterleavedRetrieval => self.interleaved_retrieval,
            SirPhase::MediumSpacing => self.medium_spacing,
            SirPhase::IntegrationTransfer => self.integration_transfer,
        }
    }

    /// Whether the table is well formed.
    pub fn is_well_formed(&self) -> (ok: bool)
        ensures
            ok == self.well_formed(),
    {
        self.encoding.shortest_days <= self.encoding.longest_days
            && self.encoding.longest_days <= self.short_term_retrieval.shortest_days
            && self.short_term_retrieval.shortest_days <= self.short_term_retrieval.longest_days
            && self.short_term_retrieval.longest_days <= self.interleaved_retrieval.shortest_days
            && self.interleaved_retrieval.shortest_days <= self.interleaved_retrieval.longest_days
            && self.interleaved_retrieval.longest_days <= self.medium_spacing.shortest_days
            && self.medium_spacing.shortest_days <= self.medium_spacing.longest_days
            && self.medium_spacing.longest_days <= self.integration_transfer.shortest_days
            && self.integration_transfer.shortest_days <= self.integration_transfer.longest_days
    }
}

impl Default for SirParameters {
    fn default() -> (params: SirParameters)
        ensures
            params == SirParameters::spec_standard(),
            params.well_formed(),
    {
        SirParameters {
            encoding: IntervalWindow { shortest_days: 0, longest_days: 0 },
            short_term_retrieval: IntervalWindow { shortest_days: 1, longest_days: 2 },
            interleaved_retrieval: IntervalWindow { shortest_days: 3, longest_days: 5 },
            medium_spacing: IntervalWindow { shortest_days: 7, longest_days: 10 },
            integration_transfer: IntervalWindow { shortest_days: 14, longest_days: 30 },
            confident_from: 3,
        }
    }
}

/// The phase one step forward, `IntegrationTransfer` staying where it is.
pub open spec fn phase_after(phase: SirPhase) -> SirPhase {
    match phase {
        SirPhase::Encoding => SirPhase::ShortTermRetrieval,
        SirPhase::ShortTermRetrieval => SirPhase::InterleavedRetrieval,
        SirPhase::InterleavedRetrieval => SirPhase::MediumSpacing,
        SirPhase::MediumSpacing => SirPhase::IntegrationTransfer,
        SirPhase::IntegrationTransfer => SirPhase::IntegrationTransfer,
    }
}

/// The phase one step back, `Encoding` staying where it is.
pub open spec fn phase_before(phase: SirPhase) -> SirPhase {
    match phase {
        SirPhase::Encoding => SirPhase::Encoding,
        SirPhase::ShortTermRetrieval => SirPhase::Encoding,
        SirPhase::InterleavedRetrieval => SirPhase::ShortTermRetrieval,
        SirPhase::MediumSpacing => SirPhase::InterleavedRetrieval,
        SirPhase::IntegrationTransfer => SirPhase::MediumSpacing,
    }
}

/// Whether a reflection asks for the item to be taken back a phase.
pub open spec fn flagged(metacognitive: Option<MetacognitiveReflection>) -> bool {
    match metacognitive {
        Some(reflection) => reflection.needs_review || reflection.felt_confusing,
        None => false,
    }
}

/// Whether a reflection says that the learner was unsure of the answer.
pub open spec fn unsure(metacognitive: Option<MetacognitiveReflection>) -> bool {
    match metacognitive {
        Some(reflection) => reflection.felt_uncertain,
        None => false,
    }
}

/// The time `days` days after `from`, held at the largest timestamp where the
/// sum would pass it.
pub open spec fn days_after(from: i64, days: u32) -> i64 {
    if from + days * MILLIS_PER_DAY > i64::MAX {
        i64::MAX
    } else {
        (from + days * MILLIS_PER_DAY) as i64
    }
}

/// The phase scheduler.
#[derive(Debug, Clone, Copy)]
pub struct SirScheduler {
    pub params: SirParameters,
}

impl Default for SirScheduler {
    fn default() -> (scheduler: SirScheduler)
        ensures
            scheduler.params == SirParameters::spec_standard(),
    {
        SirScheduler { params: SirParameters::default() }
    }
}

impl SirScheduler {
    /// An answer regresses when it is wrong, when its confidence is below
    /// the confident mark, or when the learner flagged it.
    pub open spec fn regresses(
        self,
        is_correct: bool,
        confidence: i32,
        metacognitive: Option<MetacognitiveReflection>,
    ) -> bool {
        !is_correct || confidence < self.params.confident_from || flagged(metacognitive)
    }

    /// The phase after an answer: one back when the answer regresses, one
    /// forward when it does not.
    pub open spec fn spec_advance(
        self,
        prior: SirPhase,
        is_correct: bool,
        confidence: i32,
        metacognitive: Option<MetacognitiveReflection>,
    ) -> SirPhase {
        if self.regresses(is_correct, confidence, metacognitive) {
            phase_before(prior)
        } else {
            phase_after(prior)
        }
    }

    /// Days to wait in `phase`: the short end of its window after an answer
    /// that regresses or that the learner was unsure of, the long end
    /// otherwise.
    pub open spec fn spec_interval_days(
        self,
        phase: SirPhase,
        is_correct: bool,
        confidence: i32,
        metacognitive: Option<MetacognitiveReflection>,
    ) -> u32 {
        if self.regresses(is_correct, confidence, metacognitive) || unsure(metacognitive) {
            self.params.spec_window(phase).shortest_days
        } else {
            self.params.spec_window(phase).longest_days
        }
    }

    /// A scheduler over a policy table.
    pub fn new(params: SirParameters) -> (scheduler: SirScheduler)
        ensures
            scheduler.params == params,
    {
        SirScheduler { params }
    }

    /// The phase that an item in phase `prior` moves to after an answer.
    pub fn advance(
        &self,
        prior: SirPhase,
        is_correct: bool,
        confidence: i32,
        metacognitive: &Option<MetacognitiveReflection>,
    ) -> (phase: SirPhase)
        ensures
            phase == self.spec_advance(prior, is_correct, confidence, *metacognitive),
            self.regresses(is_correct, confidence, *metacognitive) ==> phase.spec_order() == (
            if prior.spec_order() == 0 {
                0
            } else {
                prior.spec_order() - 1
            }),
            !self.regresses(is_correct, confidence, *metacognitive) ==> phase.spec_order() == (
            if prior.spec_order() == 4 {
                4
            } else {
                prior.spec_order() + 1
            }),
    {
        let marked = match metacognitive {
            Some(reflection) => reflection.needs_review || reflection.felt_confusing,
            None => false,
        };
        if !is_correct || confidence < self.params.confident_from || marked {
            match prior {
                SirPhase::Encoding => SirPhase::Encoding,
                SirPhase::ShortTermRetrieval => SirPhase::Encoding,
                SirPhase::InterleavedRetrieval => SirPhase::ShortTermRetrieval,
                SirPhase::MediumSpacing => SirPhase::InterleavedRetrieval,
                SirPhase::IntegrationTransfer => SirPhase::MediumSpacing,
            }
        } else {
            match prior {
                SirPhase::Encoding => SirPhase::ShortTermRetrieval,
                SirPhase::ShortTermRetrieval => SirPhase::InterleavedRetrieval,
                SirPhase::InterleavedRetrieval => SirPhase::MediumSpacing,
                SirPhase::MediumSpacing => SirPhase::IntegrationTransfer,
                SirPhase::IntegrationTransfer => SirPhase::IntegrationTransfer,
            }
        }
    }

    /// Days to wait for the next review of an item that an answer has put
    /// into `phase`.
    pub fn interval_days(
        &self,
        phase: SirPhase,
        is_correct: bool,
        confidence: i32,
        metacognitive: &Option<MetacognitiveReflection>,
    ) -> (days: u32)
        ensures
            days == self.spec_interval_days(phase, is_correct, confidence, *metacognitive),
    {
        let (marked, hesitant) = match metacognitive {
            Some(reflection) => (
                reflection.needs_review || reflection.felt_confusing,
                reflection.felt_uncertain,
            ),
            None => (false, false),
        };
        let window = self.params.window(phase);
        if !is_correct || confidence < self.params.confident_from || marked || hesitant {
            window.shortest_days
        } else {
            window.longest_days
        }
    }

    /// Puts the phase and the next review date on an attempt. The phase on
    /// the attempt is the phase the item was in; the answer, its confidence
    /// and the reflection decide where it goes from there, and the next
    /// review is that many days after the attempt was taken. The reflection
    /// is kept on the attempt.
    pub fn schedule(&self, attempt: &mut Attempt, metacognitive: Option<MetacognitiveReflection>)
        ensures
            final(attempt).sir_phase == self.spec_advance(
                old(attempt).sir_phase,
                old(attempt).is_correct,
                old(attempt).confidence,
                metacognitive,
            ),
            final(attempt).next_review_date == days_after(
                old(attempt).attempted_at,
                self.spec_interval_days(
                    final(attempt).sir_phase,
                    old(attempt).is_correct,
                    old(attempt).confidence,
                    metacognitive,
                ),
            ),
            final(attempt).metacognitive == metacognitive,
            final(attempt).id == old(attempt).id,
            final(attempt).item_id == old(attempt).item_id,
            final(attempt).session_id == old(attempt).session_id,
            final(attempt).user_answer == old(attempt).user_answer,
            final(attempt).is_correct == old(attempt).is_correct,
            final(attempt).confidence == old(attempt).confidence,
            final(attempt).time_spent_ms == old(attempt).time_spent_ms,
            final(attempt).attempted_at == old(attempt).attempted_at,
            final(attempt).stability == old(attempt).stability,
            final(attempt).difficulty == old(attempt).difficulty,
            final(attempt).elapsed_days == old(attempt).elapsed_days,
            final(attempt).scheduled_days == old(attempt).scheduled_days,
            final(attempt).review_state == old(attempt).review_state,
    {
        let phase = self.advance(
            attempt.sir_phase,
            attempt.is_correct,
            attempt.confidence,
            &metacognitive,
        );
        let days = self.interval_days(
            phase,
            attempt.is_correct,
            attempt.confidence,
            &metacognitive,
        );
        attempt.sir_phase = phase;
        attempt.next_review_date = add_days(attempt.attempted_at, days);
        attempt.metacognitive = metacognitive;
    }

    /// Whether an attempt is due for review at `now`: exactly when `now` has
    /// reached the next review date on it.
    pub fn is_due_at(&self, attempt: &Attempt, now: i64) -> (due: bool)
        ensures
            due == (now >= attempt.next_review_date),
            due == due_at(*attempt, now),
    {
        now >= attempt.next_review_date
    }

    /// Whether an attempt is due for review at the moment of the call: the
    /// answer of `is_due_at` for the time that the clock shows. Whatever that
    /// time is, an attempt whose next review date is not after the Unix epoch
    /// is due, and one whose next review date is after the latest time of
    /// the clock is not.
    pub fn is_due(&self, attempt: &Attempt) -> (due: bool)
        ensures
            exists|now: i64| shown_by_clock(now) && due == #[trigger] due_at(*attempt, now),
            attempt.next_review_date <= 0 ==> due,
            attempt.next_review_date > LATEST_MILLIS ==> !due,
    {
        let now = now_millis();
        self.is_due_at(attempt, now)
    }
}

/// An attempt is due at `now` exactly when `now` has reached the next review
/// date on it.
pub open spec fn due_at(attempt: Attempt, now: i64) -> bool {
    now >= attempt.next_review_date
}

/// The time `days` days after `from`.
pub fn add_days(from: i64, days: u32) -> (then: i64)
    ensures
        then == days_after(from, days),
{
    let span: i64 = (days as i64) * MILLIS_PER_DAY;
    match from.checked_add(span) {
        Some(then) => then,
        None => i64::MAX,
    }
}

/// An answer moves an item by one phase at most, back when it regresses and
/// forward when it does not, and never below `Encoding` or past
/// `IntegrationTransfer`.
pub proof fn phase_progression_is_bounded(
    scheduler: SirScheduler,
    prior: SirPhase,
    is_correct: bool,
    confidence: i32,
    metacognitive: Option<MetacognitiveReflection>,
)
    ensures
        ({
            let next = scheduler.spec_advance(prior, is_correct, confidence, metacognitive);
            let regresses = scheduler.regresses(is_correct, confidence, metacognitive);
            &&& 0 <= next.spec_order() <= 4
            &&& prior.spec_order() - 1 <= next.spec_order() <= prior.spec_order() + 1
            &&& regresses ==> next.spec_order() <= prior.spec_order()
            &&& !regresses ==> next.spec_order() >= prior.spec_order()
        }),
{
}

/// Under a well-formed table, an answer that regresses never waits longer
/// for its next review than an answer to the same item that does not.
pub proof fn regression_shortens_interval(
    scheduler: SirScheduler,
    prior: SirPhase,
    weak_correct: bool,
    weak_confidence: i32,
    weak_reflection: Option<MetacognitiveReflection>,
    firm_correct: bool,
    firm_confidence: i32,
    firm_reflection: Option<MetacognitiveReflection>,
)
    requires
        scheduler.params.well_formed(),
        scheduler.regresses(weak_correct, weak_confidence, weak_reflection),
        !scheduler.regresses(firm_correct, firm_confidence, firm_reflection),
    ensures
        scheduler.spec_interval_days(
            scheduler.spec_advance(prior, weak_correct, weak_confidence, weak_reflection),
            weak_correct,
            weak_confidence,
            weak_reflection,
        ) <= scheduler.spec_interval_days(
            scheduler.spec_advance(prior, firm_correct, firm_confidence, firm_reflection),
            firm_correct,
            firm_confidence,
            firm_reflection,
        ),
{
}

/// An attempt whose next review lies a day or more after it was taken is not
/// due at the moment it was taken, nor at any moment before that.
pub proof fn scheduled_ahead_is_not_due(attempted_at: i64, days: u32, now: i64)
    requires
        days >= 1,
        now <= attempted_at < i64::MAX,
    ensures
        !(now >= days_after(attempted_at, days)),
{
}

} // verus!
