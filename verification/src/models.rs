//! The records that the scheduling core reads and writes.

use vstd::prelude::*;

use crate::clock::{now_millis, shown_by_clock};
use crate::ids::{fresh_id, ID_LENGTH};

verus! {

/// A fraction. The denominator of a fraction made by this library is
/// positive.
#[derive(Debug, Clone, Copy, PartialEq, Eq, Structural)]
pub struct Ratio {
    pub numerator: i128,
    pub denominator: i128,
}

/// Discrete retrieval phase of an item, in the order in which a learner
/// moves through them.
#[derive(Debug, Clone, Copy, PartialEq, Eq, Structural)]
pub enum SirPhase {
    /// First exposure, day 0.
    Encoding,
    /// Practised again within one or two days.
    ShortTermRetrieval,
    /// Three to five days, mixed with other items.
    InterleavedRetrieval,
    /// Seven to ten days.
    MediumSpacing,
    /// Fourteen days and more.
    IntegrationTransfer,
}

impl SirPhase {
    /// Position of the phase in the progression, `0` for `Encoding` up to `4`
    /// for `IntegrationTransfer`.
    pub open spec fn spec_order(self) -> int {
        match self {
            SirPhase::Encoding => 0,
            SirPhase::ShortTermRetrieval => 1,
            SirPhase::InterleavedRetrieval => 2,
            SirPhase::MediumSpacing => 3,
            SirPhase::IntegrationTransfer => 4,
        }
    }

    /// The phase at a position; every position outside `1..=4` gives
    /// `Encoding`.
    pub open spec fn spec_from_order(order: int) -> SirPhase {
        if order == 1 {
            SirPhase::ShortTermRetrieval
        } else if order == 2 {
            SirPhase::InterleavedRetrieval
        } else if order == 3 {
            SirPhase::MediumSpacing
        } else if order == 4 {
            SirPhase::IntegrationTransfer
        } else {
            SirPhase::Encoding
        }
    }

    /// Position of the phase in the progression.
    pub fn order(self) -> (order: u8)
        ensures
            order == self.spec_order(),
            order <= 4,
    {
        match self {
            SirPhase::Encoding => 0,
            SirPhase::ShortTermRetrieval => 1,
            SirPhase::InterleavedRetrieval => 2,
            SirPhase::MediumSpacing => 3,
            SirPhase::IntegrationTransfer => 4,
        }
    }

    /// The name of the phase, as it is stored.
    pub open spec fn spec_name(self) -> Seq<char> {
        match self {
            SirPhase::Encoding => "Encoding"@,
            SirPhase::ShortTermRetrieval => "ShortTermRetrieval"@,
            SirPhase::InterleavedRetrieval => "InterleavedRetrieval"@,
            SirPhase::MediumSpacing => "MediumSpacing"@,
            SirPhase::IntegrationTransfer => "IntegrationTransfer"@,
        }
    }

    /// The phase stored under a name; any text that is not the name of a
    /// later phase gives `Encoding`.
    pub open spec fn spec_from_name(name: Seq<char>) -> SirPhase {
        if name == "ShortTermRetrieval"@ {
            SirPhase::ShortTermRetrieval
        } else if name == "InterleavedRetrieval"@ {
            SirPhase::InterleavedRetrieval
        } else if name == "MediumSpacing"@ {
            SirPhase::MediumSpacing
        } else if name == "IntegrationTransfer"@ {
            SirPhase::IntegrationTransfer
        } else {
            SirPhase::Encoding
        }
    }

    /// The name of the phase, as it is stored.
    pub fn name(self) -> (name: String)
        ensures
            name@ == self.spec_name(),
    {
        match self {
            SirPhase::Encoding => "Encoding".to_owned(),
            SirPhase::ShortTermRetrieval => "ShortTermRetrieval".to_owned(),
            SirPhase::InterleavedRetrieval => "InterleavedRetrieval".to_owned(),
            SirPhase::MediumSpacing => "MediumSpacing".to_owned(),
            SirPhase::IntegrationTransfer => "IntegrationTransfer".to_owned(),
        }
    }

    /// The phase stored under a name. A record that is older than the phases,
    /// or whose phase cannot be made out, reads as `Encoding`.
    pub fn from_name(name: &str) -> (phase: SirPhase)
        ensures
            phase == SirPhase::spec_from_name(name@),
    {
        let text = name.to_owned();
        if text == "ShortTermRetrieval".to_owned() {
            SirPhase::ShortTermRetrieval
        } else if text == "InterleavedRetrieval".to_owned() {
            SirPhase::InterleavedRetrieval
        } else if text == "MediumSpacing".to_owned() {
            SirPhase::MediumSpacing
        } else if text == "IntegrationTransfer".to_owned() {
            SirPhase::IntegrationTransfer
        } else {
            SirPhase::Encoding
        }
    }

    /// The phase stored under a position. A position that names no phase, as
    /// left behind by older records, reads as `Encoding`.
    pub fn from_order(order: i64) -> (phase: SirPhase)
        ensures
            phase == SirPhase::spec_from_order(order as int),
    {
        if order == 1 {
            SirPhase::ShortTermRetrieval
        } else if order == 2 {
            SirPhase::InterleavedRetrieval
        } else if order == 3 {
            SirPhase::MediumSpacing
        } else if order == 4 {
            SirPhase::IntegrationTransfer
        } else {
            SirPhase::Encoding
        }
    }
}

/// A phase is read back from the name and from the position that it was
/// stored under.
pub proof fn phase_round_trips(phase: SirPhase)
    ensures
        SirPhase::spec_from_name(phase.spec_name()) == phase,
        SirPhase::spec_from_order(phase.spec_order()) == phase,
{
    reveal_strlit("Encoding");
    reveal_strlit("ShortTermRetrieval");
    reveal_strlit("InterleavedRetrieval");
    reveal_strlit("MediumSpacing");
    reveal_strlit("IntegrationTransfer");
    assert("ShortTermRetrieval"@.len() == 18);
    assert("InterleavedRetrieval"@.len() == 20);
    assert("MediumSpacing"@.len() == 13);
    assert("IntegrationTransfer"@.len() == 19);
}

/// State of an item in the continuous memory model.
#[derive(Debug, Clone, Copy, PartialEq, Eq, Structural)]
pub enum ReviewState {
    New,
    Learning,
    Review,
    Relearning,
}

/// What the learner said about an answer beyond the answer itself.
#[derive(Debug, Clone)]
pub struct MetacognitiveReflection {
    pub felt_uncertain: bool,
    pub felt_confusing: bool,
    pub needs_review: bool,
    pub notes: Option<String>,
}

/// One graded response to one item. An attempt is written once and never
/// changed after it has been stored; the scheduling state of an item is the
/// state on its newest attempt.
#[derive(Debug, Clone)]
pub struct Attempt {
    pub id: String,
    pub item_id: String,
    pub session_id: Option<String>,
    pub user_answer: String,
    pub is_correct: bool,
    /// Self-reported confidence, 1 to 5.
    pub confidence: i32,
    pub time_spent_ms: i64,
    /// Milliseconds since the Unix epoch.
    pub attempted_at: i64,
    pub sir_phase: SirPhase,
    /// Milliseconds since the Unix epoch.
    pub next_review_date: i64,
    pub metacognitive: Option<MetacognitiveReflection>,
    /// Modeled days until recall decays to the target retention, in
    /// millionths of a day.
    pub stability: i64,
    /// Modeled hardness of the item, in millionths of a point.
    pub difficulty: i64,
    pub elapsed_days: i32,
    pub scheduled_days: i32,
    pub review_state: ReviewState,
}

impl Attempt {
    /// A fresh attempt, taken now: not yet scheduled, in phase `Encoding` and
    /// state `New`, due at the moment it was taken.
    pub fn new(
        item_id: String,
        session_id: Option<String>,
        user_answer: String,
        is_correct: bool,
        confidence: i32,
        time_spent_ms: i64,
    ) -> (attempt: Attempt)
        ensures
            attempt.id@.len() == ID_LENGTH,
            attempt.item_id == item_id,
            attempt.session_id == session_id,
            attempt.user_answer == user_answer,
            attempt.is_correct == is_correct,
            attempt.confidence == confidence,
            attempt.time_spent_ms == time_spent_ms,
            shown_by_clock(attempt.attempted_at),
            attempt.sir_phase == SirPhase::Encoding,
            attempt.next_review_date == attempt.attempted_at,
            attempt.metacognitive is None,
            attempt.stability == 0,
            attempt.difficulty == 0,
            attempt.elapsed_days == 0,
            attempt.scheduled_days == 0,
            attempt.review_state == ReviewState::New,
    {
        let now = now_millis();
        Attempt {
            id: fresh_id(),
            item_id,
            session_id,
            user_answer,
            is_correct,
            confidence,
            time_spent_ms,
            attempted_at: now,
            sir_phase: SirPhase::Encoding,
            next_review_date: now,
            metacognitive: None,
            stability: 0,
            difficulty: 0,
            elapsed_days: 0,
            scheduled_days: 0,
            review_state: ReviewState::New,
        }
    }
}

/// Source text that concepts were drawn from.
#[derive(Debug, Clone)]
pub struct LearningMaterial {
    pub id: String,
    pub content: String,
    pub domain: String,
    pub encoding_date: i64,
    pub created_at: i64,
}

impl LearningMaterial {
    /// New material, encoded and created now.
    pub fn new(content: String, domain: String) -> (material: LearningMaterial)
        ensures
            material.id@.len() == ID_LENGTH,
            material.content == content,
            material.domain == domain,
            shown_by_clock(material.created_at),
            material.encoding_date == material.created_at,
    {
        let now = now_millis();
        LearningMaterial { id: fresh_id(), content, domain, encoding_date: now, created_at: now }
    }
}

/// A named unit of knowledge. Its mastery is computed on demand from the
/// attempts on the items that name it.
#[derive(Debug, Clone)]
pub struct Concept {
    pub id: String,
    pub name: String,
    pub domain: String,
    pub subdomain: Option<String>,
    pub description: Option<String>,
    pub tags: Vec<String>,
    pub learning_material_id: Option<String>,
    pub created_at: i64,
    pub updated_at: i64,
}

impl Concept {
    /// A new concept with a name and a domain and nothing else.
    pub fn new(name: String, domain: String) -> (concept: Concept)
        ensures
            concept.id@.len() == ID_LENGTH,
            concept.name == name,
            concept.domain == domain,
            concept.subdomain is None,
            concept.description is None,
            concept.tags@.len() == 0,
            concept.learning_material_id is None,
            shown_by_clock(concept.created_at),
            concept.updated_at == concept.created_at,
    {
        let now = now_millis();
        Concept {
            id: fresh_id(),
            name,
            domain,
            subdomain: None,
            description: None,
            tags: Vec::new(),
            learning_material_id: None,
            created_at: now,
            updated_at: now,
        }
    }
}

/// One answer option of a multiple-choice item.
#[derive(Debug, Clone)]
pub struct McqOption {
    pub id: String,
    pub text: String,
    pub is_correct: bool,
    pub explanation: Option<String>,
}

/// A named quantity of a calculation item. The value is in millionths.
#[derive(Debug, Clone)]
pub struct CalcVariable {
    pub name: String,
    pub value: i64,
    pub unit: String,
}

/// One step of a case vignette.
#[derive(Debug, Clone)]
pub struct CaseStep {
    pub step_number: i32,
    pub prompt: String,
    pub correct_answer: String,
    pub points: i32,
    pub explanation: String,
}

/// One blank of a cloze text.
#[derive(Debug, Clone)]
pub struct ClozeBlanks {
    pub id: String,
    pub correct_answer: String,
}

/// The kind of an item, with what each kind needs to be shown and graded.
#[allow(inconsistent_fields)]
#[derive(Debug, Clone)]
pub enum ItemType {
    Mcq { options: Vec<McqOption> },
    FreeRecall { correct_answer: String },
    Calculation {
        formula: String,
        variables: Vec<CalcVariable>,
        /// In millionths.
        correct_answer: i64,
        unit: String,
        worked_solution: Vec<String>,
    },
    CaseVignette { steps: Vec<CaseStep> },
    Cloze { blanks: Vec<ClozeBlanks> },
}

/// Difficulty that a new item starts with, on a scale of 0 to 100.
pub const DEFAULT_ITEM_DIFFICULTY: i32 = 50;

/// A gradable question. It names the concepts it tests and carries no
/// scheduling state of its own.
#[derive(Debug, Clone)]
pub struct Item {
    pub id: String,
    pub stem: String,
    pub item_type: ItemType,
    pub concept_ids: Vec<String>,
    pub difficulty: i32,
    pub source: Option<String>,
    pub explanation: String,
    pub created_at: i64,
    pub updated_at: i64,
}

impl Item {
    /// The concepts that the item names, in its order.
    pub open spec fn concept_texts(self) -> Seq<Seq<char>> {
        Seq::new(self.concept_ids@.len(), |k: int| self.concept_ids@[k]@)
    }

    /// Whether the item names the concept with this identifier.
    pub fn names_concept(&self, concept_id: &String) -> (named: bool)
        ensures
            named == self.concept_texts().contains(concept_id@),
    {
        let mut k: usize = 0;
        while k < self.concept_ids.len()
            invariant
                k <= self.concept_ids.len(),
                forall|m: int| 0 <= m < k ==> self.concept_texts()[m] != concept_id@,
            decreases self.concept_ids.len() - k,
        {
            if self.concept_ids[k] == *concept_id {
                assert(self.concept_texts()[k as int] == concept_id@);
                return true;
            }
            k = k + 1;
        }
        false
    }

    /// A new item of middling difficulty, created now.
    pub fn new(
        stem: String,
        item_type: ItemType,
        concept_ids: Vec<String>,
        explanation: String,
    ) -> (item: Item)
        ensures
            item.id@.len() == ID_LENGTH,
            item.stem == stem,
            item.item_type == item_type,
            item.concept_ids == concept_ids,
            item.difficulty == DEFAULT_ITEM_DIFFICULTY,
            item.source is None,
            item.explanation == explanation,
            shown_by_clock(item.created_at),
            item.updated_at == item.created_at,
    {
        let now = now_millis();
        Item {
            id: fresh_id(),
            stem,
            item_type,
            concept_ids,
            difficulty: DEFAULT_ITEM_DIFFICULTY,
            source: None,
            explanation,
            created_at: now,
            updated_at: now,
        }
    }
}

/// An item together with the attempts made on it, newest first.
#[derive(Debug, Clone)]
pub struct ItemHistory {
    pub item: Item,
    pub attempts: Vec<Attempt>,
}

/// What a study session is for.
#[derive(Debug, Clone)]
pub enum SessionType {
    Mixed,
    Diagnostic,
    Focused { concept_id: String },
    Exam { time_limit_ms: i64 },
}

/// A sitting in which a number of items are worked through.
#[derive(Debug, Clone)]
pub struct Session {
    pub id: String,
    pub session_type: SessionType,
    pub started_at: i64,
    pub completed_at: Option<i64>,
    pub total_items: i32,
    pub completed_items: i32,
    /// Share of correct answers, in millionths.
    pub accuracy: i64,
    /// Mean confidence, in millionths.
    pub average_confidence: i64,
}

impl Session {
    /// A session that starts now with nothing completed.
    pub fn new(session_type: SessionType, total_items: i32) -> (session: Session)
        ensures
            session.id@.len() == ID_LENGTH,
            session.session_type == session_type,
            shown_by_clock(session.started_at),
            session.completed_at is None,
            session.total_items == total_items,
            session.completed_items == 0,
            session.accuracy == 0,
            session.average_confidence == 0,
    {
        Session {
            id: fresh_id(),
            session_type,
            started_at: now_millis(),
            completed_at: None,
            total_items,
            completed_items: 0,
            accuracy: 0,
            average_confidence: 0,
        }
    }
}

/// One entry of a daily plan.
#[derive(Debug, Clone)]
pub struct PlannedItem {
    pub item_id: String,
    /// The first concept of the item, empty when it names none.
    pub concept_id: String,
    pub reason: String,
    pub priority: i32,
}

/// The exact figures that the scores of a history are made of. Means are the
/// sums by the number of attempts.
#[derive(Debug, Clone, Copy, PartialEq, Eq, Structural)]
pub struct MasteryFigures {
    /// Number of attempts.
    pub attempts: usize,
    /// Number of correct attempts.
    pub correct: usize,
    /// Number of recent attempts, at most five.
    pub recent_attempts: usize,
    /// Number of correct attempts among the recent ones.
    pub recent_correct: usize,
    /// Sum of the confidences.
    pub confidence_sum: i128,
    /// Sum of the stabilities, in millionths of a day.
    pub stability_sum: i128,
    /// Sum of the squared residuals, in twenty-fifths.
    pub squared_residuals: i128,
}

/// What the attempts on the items of a concept come to.
#[derive(Debug, Clone)]
pub struct ConceptMastery {
    pub concept_id: String,
    pub concept_name: String,
    /// Out of a hundred points; nothing where the history is beyond the
    /// limits of the score.
    pub mastery_score: Option<Ratio>,
    pub figures: MasteryFigures,
    pub brier_score: Ratio,
    /// When the first attempt of the history was taken.
    pub last_attempted: Option<i64>,
    pub trend: String,
}

/// What to study on one day.
#[derive(Debug, Clone)]
pub struct DailyPlan {
    /// When the plan was made.
    pub date: i64,
    pub reviews: Vec<PlannedItem>,
    pub diagnostics: Vec<PlannedItem>,
    pub total_items: i32,
    pub estimated_time_min: i32,
    /// The different concepts named by items that have been answered, as a
    /// percentage of the concepts there are.
    pub coverage_percent: Ratio,
}

/// A class of mistakes with how often it was made.
#[derive(Debug, Clone)]
pub struct ErrorAnalysis {
    pub error_type: String,
    pub count: i32,
    /// In millionths of a percent point.
    pub percentage: i64,
    pub example_items: Vec<String>,
}

/// The figures of one completed session, for a chart over time.
#[derive(Debug, Clone, Copy)]
pub struct PerformanceTrend {
    pub date: i64,
    pub accuracy: i64,
    pub items_completed: i32,
    pub avg_confidence: i64,
}

} // verus!
