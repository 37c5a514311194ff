//! What a caller asks of the core when an answer comes in, a session ends or
//! a chart of past sessions is drawn.

use vstd::prelude::*;

use crate::clock::{now_millis, shown_by_clock};
use crate::fixed::{floor_div, held_between};
use crate::fsrs::{
    next_review_state, rating_for, spec_rating_for, FSRSScheduler, MAX_DIFFICULTY, MIN_DIFFICULTY,
};
use crate::ids::ID_LENGTH;
use crate::models::{
    Attempt, MetacognitiveReflection, PerformanceTrend, ReviewState, Session, SirPhase,
};
use crate::sir_scheduler::{days_after, SirScheduler, MILLIS_PER_DAY};

verus! {

/// Whole days from one time to another: none where the second is not later
/// than the first, and never more than 32 bits hold.
pub open spec fn days_between(from: i64, to: i64) -> int {
    held_between((to - from) / (MILLIS_PER_DAY as int), 0, i32::MAX as int)
}

/// Whole days from one time to another.
pub fn elapsed_days(from: i64, to: i64) -> (days: i32)
    ensures
        days == days_between(from, to),
{
    let span: i128 = to as i128 - from as i128;
    let days: i128 = floor_div(span, MILLIS_PER_DAY as i128);
    if days < 0 {
        0
    } else if days > i32::MAX as i128 {
        i32::MAX
    } else {
        days as i32
    }
}

/// The phase that an item is in before an answer: the phase on its latest
/// attempt, and `Encoding` where it has none.
pub open spec fn phase_so_far(prior: Option<&Attempt>) -> SirPhase {
    match prior {
        Some(latest) => latest.sir_phase,
        None => SirPhase::Encoding,
    }
}

/// The review state that an item is in before an answer: the state on its
/// latest attempt, and `New` where it has none.
pub open spec fn state_so_far(prior: Option<&Attempt>) -> ReviewState {
    match prior {
        Some(latest) => latest.review_state,
        None => ReviewState::New,
    }
}

/// The latest attempt on an item as the memory model reads it for an answer
/// given at `at`: with the days that have passed since it was taken.
pub open spec fn read_at(latest: Attempt, at: i64) -> Attempt {
    Attempt { elapsed_days: days_between(latest.attempted_at, at) as i32, ..latest }
}

/// The attempt that records an answer given now, scheduled by both models.
///
/// `prior` is the latest attempt on the item, if it has been answered
/// before. The phase scheduler moves on from the phase on it, the memory
/// model from its review state, stability and difficulty, with the whole days
/// since it was taken as the elapsed days; an item without it starts from
/// `Encoding` and as a new item. `decay` is e to the power of minus the
/// stability on `prior`, the stability in days and the power in millionths;
/// it counts for an item under review only. The prior attempt stays as it is.
pub fn submit_attempt(
    sir: &SirScheduler,
    fsrs: &FSRSScheduler,
    prior: Option<&Attempt>,
    decay: i64,
    item_id: String,
    session_id: Option<String>,
    user_answer: String,
    is_correct: bool,
    confidence: i32,
    time_spent_ms: i64,
    metacognitive: Option<MetacognitiveReflection>,
) -> (attempt: Attempt)
    requires
        fsrs.params.well_formed(),
    ensures
        attempt.id@.len() == ID_LENGTH,
        attempt.item_id == item_id,
        attempt.session_id == session_id,
        attempt.user_answer == user_answer,
        attempt.is_correct == is_correct,
        attempt.confidence == confidence,
        attempt.time_spent_ms == time_spent_ms,
        shown_by_clock(attempt.attempted_at),
        attempt.metacognitive == metacognitive,
        attempt.sir_phase == sir.spec_advance(
            phase_so_far(prior),
            is_correct,
            confidence,
            metacognitive,
        ),
        attempt.next_review_date == days_after(
            attempt.attempted_at,
            sir.spec_interval_days(attempt.sir_phase, is_correct, confidence, metacognitive),
        ),
        attempt.review_state == next_review_state(
            state_so_far(prior),
            spec_rating_for(is_correct, confidence as int),
        ),
        match prior {
            Some(latest) => {
                &&& attempt.elapsed_days == days_between(
                    latest.attempted_at,
                    attempt.attempted_at,
                )
                &&& attempt.difficulty == fsrs.spec_difficulty_after(
                    read_at(*latest, attempt.attempted_at),
                    spec_rating_for(is_correct, confidence as int),
                )
                &&& attempt.stability == fsrs.spec_stability_after(
                    read_at(*latest, attempt.attempted_at),
                    spec_rating_for(is_correct, confidence as int),
                    decay as int,
                )
            },
            None => {
                &&& attempt.elapsed_days == 0
                &&& attempt.difficulty == fsrs.spec_init_difficulty(
                    spec_rating_for(is_correct, confidence as int),
                )
                &&& attempt.stability == fsrs.spec_init_stability(
                    spec_rating_for(is_correct, confidence as int),
                )
            },
        },
        MIN_DIFFICULTY <= attempt.difficulty <= MAX_DIFFICULTY,
        attempt.scheduled_days == fsrs.spec_next_interval(attempt.stability as int),
        1 <= attempt.scheduled_days <= fsrs.params.maximum_interval,
{
    let mut attempt = Attempt::new(
        item_id,
        session_id,
        user_answer,
        is_correct,
        confidence,
        time_spent_ms,
    );
    match prior {
        Some(latest) => {
            attempt.sir_phase = latest.sir_phase;
            attempt.review_state = latest.review_state;
            attempt.stability = latest.stability;
            attempt.difficulty = latest.difficulty;
            attempt.elapsed_days = elapsed_days(latest.attempted_at, attempt.attempted_at);
        },
        None => {},
    }
    sir.schedule(&mut attempt, metacognitive);
    let rating = rating_for(is_correct, confidence);
    fsrs.schedule(&mut attempt, rating, decay);
    attempt
}

/// Closes a session now with its results.
pub fn complete_session(
    session: &mut Session,
    completed_items: i32,
    accuracy: i64,
    average_confidence: i64,
)
    ensures
        final(session).completed_at matches Some(at) && shown_by_clock(at),
        final(session).completed_items == completed_items,
        final(session).accuracy == accuracy,
        final(session).average_confidence == average_confidence,
        final(session).id == old(session).id,
        final(session).session_type == old(session).session_type,
        final(session).started_at == old(session).started_at,
        final(session).total_items == old(session).total_items,
{
    session.completed_at = Some(now_millis());
    session.completed_items = completed_items;
    session.accuracy = accuracy;
    session.average_confidence = average_confidence;
}

/// A session is completed once it has a time of completion.
pub open spec fn completed() -> spec_fn(Session) -> bool {
    |session: Session| session.completed_at is Some
}

/// The figures of a session as a point of the chart.
pub open spec fn trend_of() -> spec_fn(Session) -> PerformanceTrend {
    |session: Session|
        PerformanceTrend {
            date: session.started_at,
            accuracy: session.accuracy,
            items_completed: session.completed_items,
            avg_confidence: session.average_confidence,
        }
}

/// The chart of past sessions: one point for every completed session, in the
/// order of `sessions`.
pub fn get_performance_trends(sessions: &Vec<Session>) -> (trends: Vec<PerformanceTrend>)
    ensures
        trends@ == sessions@.filter(completed()).map_values(trend_of()),
{
    let mut trends: Vec<PerformanceTrend> = Vec::new();
    let mut i: usize = 0;
    while i < sessions.len()
        invariant
            i <= sessions.len(),
            trends@ =~= sessions@.take(i as int).filter(completed()).map_values(trend_of()),
        decreases sessions.len() - i,
    {
        let session = &sessions[i];
        proof {
            sessions@.lemma_take_succ_push(i as int);
            sessions@.take(i as int).lemma_filter_push(sessions@[i as int], completed());
        }
        if session.completed_at.is_some() {
            trends.push(
                PerformanceTrend {
                    date: session.started_at,
                    accuracy: session.accuracy,
                    items_completed: session.completed_items,
                    avg_confidence: session.average_confidence,
                },
            );
        }
        i = i + 1;
    }
    assert(sessions@.take(i as int) == sessions@);
    trends
}

} // verus!
