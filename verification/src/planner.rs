//! The review planner: which item to show next, how many are waiting, and
//! what a day's plan holds.

use vstd::prelude::*;

use crate::models::{Concept, DailyPlan, Item, ItemHistory, PlannedItem, Ratio};
use crate::sir_scheduler::SirScheduler;

verus! {

/// An item is new while nobody has answered it.
pub open spec fn is_new(history: ItemHistory) -> bool {
    history.attempts@.len() == 0
}

/// An item is due at `now` when it has been answered and `now` has reached
/// the next review date on its newest attempt.
pub open spec fn is_due(history: ItemHistory, now: i64) -> bool {
    history.attempts@.len() > 0 && now >= history.attempts@[0].next_review_date
}

/// An item waits for the learner when it is new or due.
pub open spec fn is_waiting(history: ItemHistory, now: i64) -> bool {
    is_new(history) || is_due(history, now)
}

/// The predicate `is_new`, as a value.
pub open spec fn new_pred() -> spec_fn(ItemHistory) -> bool {
    |history: ItemHistory| is_new(history)
}

/// The predicate `is_due` at `now`, as a value.
pub open spec fn due_pred(now: i64) -> spec_fn(ItemHistory) -> bool {
    |history: ItemHistory| is_due(history, now)
}

/// Position of the phase on the newest attempt of an answered item.
pub open spec fn phase_order(history: ItemHistory) -> int {
    history.attempts@[0].sir_phase.spec_order()
}

/// The due item at `index` goes first: no due item is in an earlier phase,
/// and none in the same phase stands before it.
pub open spec fn is_first_due(histories: Seq<ItemHistory>, now: i64, index: int) -> bool {
    &&& 0 <= index < histories.len()
    &&& is_due(histories[index], now)
    &&& forall|other: int|
        0 <= other < histories.len() && is_due(#[trigger] histories[other], now) ==> {
            ||| phase_order(histories[index]) < phase_order(histories[other])
            ||| (phase_order(histories[index]) == phase_order(histories[other]) && index <= other)
        }
}

/// The item at `index` is the first new one.
pub open spec fn is_first_new(histories: Seq<ItemHistory>, index: int) -> bool {
    &&& 0 <= index < histories.len()
    &&& is_new(histories[index])
    &&& forall|other: int| 0 <= other < index ==> !is_new(#[trigger] histories[other])
}

/// The item at `index` is the one to show next: the first due item, or, when
/// nothing is due, the first new item.
pub open spec fn is_next_review(histories: Seq<ItemHistory>, now: i64, index: int) -> bool {
    ||| is_first_due(histories, now, index)
    ||| {
        &&& is_first_new(histories, index)
        &&& forall|other: int|
            0 <= other < histories.len() ==> !is_due(#[trigger] histories[other], now)
    }
}

/// At most one item is the one to show next.
pub proof fn next_review_is_unique(
    histories: Seq<ItemHistory>,
    now: i64,
    one: int,
    other: int,
)
    requires
        is_next_review(histories, now, one),
        is_next_review(histories, now, other),
    ensures
        one == other,
{
}

/// Whether the item of a history is due at `now`.
pub fn due_at(sir: &SirScheduler, history: &ItemHistory, now: i64) -> (due: bool)
    ensures
        due == is_due(*history, now),
{
    if history.attempts.len() == 0 {
        false
    } else {
        sir.is_due_at(&history.attempts[0], now)
    }
}

/// Where the item to show next stands in `histories`, if there is one.
pub fn next_review_index(sir: &SirScheduler, histories: &Vec<ItemHistory>, now: i64) -> (found:
    Option<usize>)
    ensures
        match found {
            Some(index) => is_next_review(histories@, now, index as int),
            None => forall|index: int|
                0 <= index < histories.len() ==> !is_waiting(#[trigger] histories[index], now),
        },
{
    let mut first_due: Option<usize> = None;
    let mut first_new: Option<usize> = None;
    let mut i: usize = 0;
    while i < histories.len()
        invariant
            i <= histories.len(),
            match first_due {
                Some(index) => is_first_due(histories@.take(i as int), now, index as int),
                None => forall|other: int|
                    0 <= other < i ==> !is_due(#[trigger] histories[other], now),
            },
            match first_new {
                Some(index) => is_first_new(histories@.take(i as int), index as int),
                None => forall|other: int| 0 <= other < i ==> !is_new(#[trigger] histories[other]),
            },
        decreases histories.len() - i,
    {
        let history = &histories[i];
        if history.attempts.len() == 0 {
            if first_new.is_none() {
                first_new = Some(i);
            }
        } else if sir.is_due_at(&history.attempts[0], now) {
            let better = match first_due {
                Some(index) => history.attempts[0].sir_phase.order()
                    < histories[index].attempts[0].sir_phase.order(),
                None => true,
            };
            if better {
                first_due = Some(i);
            }
        }
        i = i + 1;
    }
    assert(histories@.take(i as int) == histories@);
    if first_due.is_some() {
        first_due
    } else {
        first_new
    }
}

/// The item to show next: the first due item, earlier phases before later
/// ones, or the first new item when nothing is due, or nothing.
pub fn get_next_review_item<'a>(
    sir: &SirScheduler,
    histories: &'a Vec<ItemHistory>,
    now: i64,
) -> (next: Option<&'a Item>)
    ensures
        match next {
            Some(item) => exists|index: int|
                is_next_review(histories@, now, index) && *item == (
                #[trigger] histories[index]).item,
            None => forall|index: int|
                0 <= index < histories.len() ==> !is_waiting(#[trigger] histories[index], now),
        },
{
    match next_review_index(sir, histories, now) {
        Some(index) => Some(&histories[index].item),
        None => None,
    }
}

/// The number of items.
pub fn get_item_count(items: &Vec<Item>) -> (count: usize)
    ensures
        count == items@.len(),
{
    items.len()
}

/// The number of items that are due at `now`. An item that nobody has
/// answered yet is not due.
pub fn get_due_count(sir: &SirScheduler, histories: &Vec<ItemHistory>, now: i64) -> (count: usize)
    ensures
        count == histories@.filter(due_pred(now)).len(),
        count <= histories@.len(),
{
    let mut count: usize = 0;
    let mut i: usize = 0;
    while i < histories.len()
        invariant
            i <= histories.len(),
            count == histories@.take(i as int).filter(due_pred(now)).len(),
            count <= i,
        decreases histories.len() - i,
    {
        proof {
            histories@.lemma_take_succ_push(i as int);
            histories@.take(i as int).lemma_filter_push(histories[i as int], due_pred(now));
        }
        if due_at(sir, &histories[i], now) {
            count = count + 1;
        }
        i = i + 1;
    }
    assert(histories@.take(i as int) == histories@);
    count
}

/// Most review entries of a daily plan.
pub const MAX_REVIEWS: usize = 12;

/// Most diagnostic entries of a daily plan.
pub const MAX_DIAGNOSTICS: usize = 3;

/// Stability, in millionths of a day, below which a due item is urgent:
/// seven days.
pub const FRAGILE_BELOW: i64 = 7_000_000;

/// Priority of a due item whose stability is below `FRAGILE_BELOW`.
pub const URGENT_PRIORITY: i32 = 3;

/// Priority of a new item.
pub const DIAGNOSTIC_PRIORITY: i32 = 2;

/// Priority of a due item that is not urgent.
pub const ROUTINE_PRIORITY: i32 = 1;

/// Minutes that a plan reckons for one item.
pub const MINUTES_PER_ITEM: i32 = 2;

/// The first concept that an item names, empty when it names none.
pub open spec fn first_concept(item: Item) -> Seq<char> {
    if item.concept_ids@.len() > 0 {
        item.concept_ids@[0]@
    } else {
        Seq::empty()
    }
}

/// An answered item is fragile when the stability on its newest attempt is
/// below seven days.
pub open spec fn is_fragile(history: ItemHistory) -> bool {
    history.attempts@[0].stability < FRAGILE_BELOW
}

/// The predicate `is_fragile`, as a value.
pub open spec fn fragile_pred() -> spec_fn(ItemHistory) -> bool {
    |history: ItemHistory| is_fragile(history)
}

/// The opposite of `is_fragile`, as a value.
pub open spec fn sturdy_pred() -> spec_fn(ItemHistory) -> bool {
    |history: ItemHistory| !is_fragile(history)
}

/// Priority of a due item in a plan.
pub open spec fn review_priority(history: ItemHistory) -> int {
    if is_fragile(history) {
        URGENT_PRIORITY as int
    } else {
        ROUTINE_PRIORITY as int
    }
}

/// The first `most` of `all`.
pub open spec fn first_few(all: Seq<ItemHistory>, most: int) -> Seq<ItemHistory> {
    if all.len() <= most {
        all
    } else {
        all.take(most)
    }
}

/// The items that a plan diagnoses: the first three new ones.
pub open spec fn diagnostic_items(histories: Seq<ItemHistory>) -> Seq<ItemHistory> {
    first_few(histories.filter(new_pred()), MAX_DIAGNOSTICS as int)
}

/// The items that a plan reviews, before they are put in order: the first
/// twelve due ones.
pub open spec fn review_candidates(histories: Seq<ItemHistory>, now: i64) -> Seq<ItemHistory> {
    first_few(histories.filter(due_pred(now)), MAX_REVIEWS as int)
}

/// The items that a plan reviews, in the order of the plan: the fragile
/// candidates, then the others, each group in the order of the items.
pub open spec fn review_items(histories: Seq<ItemHistory>, now: i64) -> Seq<ItemHistory> {
    review_candidates(histories, now).filter(fragile_pred()) + review_candidates(
        histories,
        now,
    ).filter(sturdy_pred())
}

/// `entry` is the plan entry of `history` with this reason and priority.
pub open spec fn is_entry_of(
    entry: PlannedItem,
    history: ItemHistory,
    reason: Seq<char>,
    priority: int,
) -> bool {
    &&& entry.item_id@ == history.item.id@
    &&& entry.concept_id@ == first_concept(history.item)
    &&& entry.reason@ == reason
    &&& entry.priority == priority
}

/// `entry` is the diagnostic entry of a new item.
pub open spec fn is_diagnostic_entry(entry: PlannedItem, history: ItemHistory) -> bool {
    is_entry_of(entry, history, "new_concept"@, DIAGNOSTIC_PRIORITY as int)
}

/// `entry` is the review entry of a due item.
pub open spec fn is_review_entry(entry: PlannedItem, history: ItemHistory) -> bool {
    is_entry_of(entry, history, "due_for_review"@, review_priority(history))
}

/// The concepts that an item counts for in the coverage of a plan: those it
/// names once it has been answered, none while it is new.
pub open spec fn concepts_touched(history: ItemHistory) -> Seq<Seq<char>> {
    if is_new(history) {
        Seq::empty()
    } else {
        history.item.concept_texts()
    }
}

/// The function `concepts_touched`, as a value.
pub open spec fn touched_fn() -> spec_fn(ItemHistory) -> Seq<Seq<char>> {
    |history: ItemHistory| concepts_touched(history)
}

/// The concepts named by the items that have been answered, one for each
/// time it is named.
pub open spec fn attempted_concept_ids(histories: Seq<ItemHistory>) -> Seq<Seq<char>> {
    histories.flat_map(touched_fn())
}

/// The plan entry of an item.
fn plan_entry(history: &ItemHistory, reason: &str, priority: i32) -> (entry: PlannedItem)
    ensures
        is_entry_of(entry, *history, reason@, priority as int),
{
    let concept_id = if history.item.concept_ids.len() > 0 {
        history.item.concept_ids[0].clone()
    } else {
        String::new()
    };
    PlannedItem {
        item_id: history.item.id.clone(),
        concept_id,
        reason: reason.to_owned(),
        priority,
    }
}

/// The histories at the positions `picks`, in that order.
pub open spec fn picked(histories: Seq<ItemHistory>, picks: Seq<usize>) -> Seq<ItemHistory> {
    Seq::new(picks.len(), |k: int| histories[picks[k] as int])
}

/// Positions of the first `most` items that are due at `now`, or of the first
/// `most` new items.
fn first_matching(
    sir: &SirScheduler,
    histories: &Vec<ItemHistory>,
    now: i64,
    due: bool,
    most: usize,
) -> (picks: Vec<usize>)
    ensures
        forall|k: int| 0 <= k < picks@.len() ==> (#[trigger] picks@[k]) < histories.len(),
        picked(histories@, picks@) == first_few(
            histories@.filter(
                if due {
                    due_pred(now)
                } else {
                    new_pred()
                },
            ),
            most as int,
        ),
{
    let ghost pred = if due {
        due_pred(now)
    } else {
        new_pred()
    };
    let mut picks: Vec<usize> = Vec::new();
    let mut i: usize = 0;
    while i < histories.len()
        invariant
            i <= histories.len(),
            pred == if due {
                due_pred(now)
            } else {
                new_pred()
            },
            forall|k: int| 0 <= k < picks@.len() ==> (#[trigger] picks@[k]) < i,
            picked(histories@, picks@) =~= first_few(
                histories@.take(i as int).filter(pred),
                most as int,
            ),
        decreases histories.len() - i,
    {
        let history = &histories[i];
        proof {
            histories@.lemma_take_succ_push(i as int);
            histories@.take(i as int).lemma_filter_push(histories[i as int], pred);
        }
        let matches = if due {
            due_at(sir, history, now)
        } else {
            history.attempts.len() == 0
        };
        if matches && picks.len() < most {
            let ghost before = picks@;
            picks.push(i);
            assert(picked(histories@, picks@) =~= picked(histories@, before).push(
                histories[i as int],
            ));
        }
        i = i + 1;
    }
    assert(histories@.take(i as int) == histories@);
    picks
}

/// Appends to `reviews` the review entries of the fragile items among those
/// at `picks`, or of those that are not fragile.
fn push_reviews(
    histories: &Vec<ItemHistory>,
    picks: &Vec<usize>,
    fragile: bool,
    reviews: &mut Vec<PlannedItem>,
    Ghost(shown): Ghost<Seq<ItemHistory>>,
) -> (now_shown: Ghost<Seq<ItemHistory>>)
    requires
        forall|k: int| 0 <= k < picks@.len() ==> (#[trigger] picks@[k]) < histories.len(),
        forall|k: int|
            0 <= k < picks@.len() ==> (#[trigger] histories@[picks@[k] as int]).attempts@.len() > 0,
        old(reviews)@.len() == shown.len(),
        forall|j: int|
            0 <= j < shown.len() ==> is_review_entry(#[trigger] old(reviews)@[j], shown[j]),
    ensures
        now_shown@ == shown + picked(histories@, picks@).filter(
            if fragile {
                fragile_pred()
            } else {
                sturdy_pred()
            },
        ),
        final(reviews)@.len() == now_shown@.len(),
        forall|j: int|
            0 <= j < now_shown@.len() ==> is_review_entry(
                #[trigger] final(reviews)@[j],
                now_shown@[j],
            ),
{
    let ghost pred = if fragile {
        fragile_pred()
    } else {
        sturdy_pred()
    };
    let ghost candidates = picked(histories@, picks@);
    let ghost mut added: Seq<ItemHistory> = Seq::empty();
    let mut k: usize = 0;
    while k < picks.len()
        invariant
            k <= picks.len(),
            pred == if fragile {
                fragile_pred()
            } else {
                sturdy_pred()
            },
            candidates == picked(histories@, picks@),
            forall|m: int| 0 <= m < picks@.len() ==> (#[trigger] picks@[m]) < histories.len(),
            forall|m: int|
                0 <= m < picks@.len() ==> (#[trigger] histories@[picks@[m] as int]).attempts@.len()
                    > 0,
            added == candidates.take(k as int).filter(pred),
            reviews@.len() == shown.len() + added.len(),
            forall|j: int|
                0 <= j < shown.len() + added.len() ==> is_review_entry(
                    #[trigger] reviews@[j],
                    (shown + added)[j],
                ),
        decreases picks.len() - k,
    {
        let history = &histories[picks[k]];
        proof {
            candidates.lemma_take_succ_push(k as int);
            candidates.take(k as int).lemma_filter_push(candidates[k as int], pred);
        }
        let weak = history.attempts[0].stability < FRAGILE_BELOW;
        if weak == fragile {
            let priority = if weak {
                URGENT_PRIORITY
            } else {
                ROUTINE_PRIORITY
            };
            let entry = plan_entry(history, "due_for_review", priority);
            reviews.push(entry);
            proof {
                added = added.push(*history);
            }
        }
        k = k + 1;
    }
    assert(candidates.take(k as int) == candidates);
    Ghost(shown + added)
}

/// The texts of a list of identifiers.
pub open spec fn texts(ids: Seq<&String>) -> Seq<Seq<char>> {
    Seq::new(ids.len(), |k: int| ids[k]@)
}

/// Whether `id` is among `seen`.
fn is_among(seen: &Vec<&String>, id: &String) -> (found: bool)
    ensures
        found == texts(seen@).contains(id@),
{
    let mut j: usize = 0;
    while j < seen.len()
        invariant
            j <= seen.len(),
            forall|m: int| 0 <= m < j ==> texts(seen@)[m] != id@,
        decreases seen.len() - j,
    {
        if *seen[j] == *id {
            assert(texts(seen@)[j as int] == id@);
            return true;
        }
        j = j + 1;
    }
    false
}

/// The number of different concepts named by the items that have been
/// answered.
pub fn count_attempted_concepts(histories: &Vec<ItemHistory>) -> (count: usize)
    ensures
        count == attempted_concept_ids(histories@).to_set().len(),
{
    let mut seen: Vec<&String> = Vec::new();
    let mut i: usize = 0;
    while i < histories.len()
        invariant
            i <= histories.len(),
            texts(seen@).no_duplicates(),
            texts(seen@).to_set() =~= attempted_concept_ids(histories@.take(i as int)).to_set(),
        decreases histories.len() - i,
    {
        let history = &histories[i];
        let ghost done = attempted_concept_ids(histories@.take(i as int));
        let ghost here = concepts_touched(*history);
        proof {
            histories@.lemma_flat_map_take_append(touched_fn(), i as int);
        }
        if history.attempts.len() > 0 {
            let ids = &history.item.concept_ids;
            let mut k: usize = 0;
            while k < ids.len()
                invariant
                    k <= ids.len(),
                    ids == &history.item.concept_ids,
                    here == history.item.concept_texts(),
                    texts(seen@).no_duplicates(),
                    texts(seen@).to_set() =~= (done + here.take(k as int)).to_set(),
                decreases ids.len() - k,
            {
                let id = &ids[k];
                proof {
                    here.lemma_take_succ_push(k as int);
                    (done + here.take(k as int)).lemma_push_to_set_commute(id@);
                }
                if !is_among(&seen, id) {
                    let ghost before = texts(seen@);
                    seen.push(id);
                    proof {
                        assert(texts(seen@) =~= before.push(id@));
                        before.lemma_push_to_set_commute(id@);
                    }
                }
                k = k + 1;
            }
            assert(here.take(k as int) == here);
        }
        i = i + 1;
    }
    assert(histories@.take(i as int) == histories@);
    proof {
        texts(seen@).unique_seq_to_set();
    }
    seen.len()
}

/// `covered` as a percentage of `total`, as numerator and denominator; nothing
/// of nothing is 0.
pub open spec fn coverage_fraction(covered: nat, total: nat) -> (int, int) {
    if total == 0 {
        (0, 1)
    } else {
        (100 * covered as int, total as int)
    }
}

/// `covered` as a percentage of `total`.
pub fn coverage_percent(covered: usize, total: usize) -> (percent: Ratio)
    ensures
        (percent.numerator as int, percent.denominator as int) == coverage_fraction(
            covered as nat,
            total as nat,
        ),
        percent.denominator > 0,
{
    if total == 0 {
        Ratio { numerator: 0, denominator: 1 }
    } else {
        Ratio { numerator: 100 * (covered as i128), denominator: total as i128 }
    }
}

/// The plan of a day, made at `now`.
///
/// The plan diagnoses the first three new items, each with priority 2. It
/// reviews the first twelve items that are due at `now`, those whose
/// stability is below seven days first with priority 3, the others after
/// them with priority 1, each group in the order of the items. It reckons
/// two minutes for every entry, and it gives the different concepts named by
/// answered items as a percentage of the concepts there are.
pub fn get_daily_plan(
    sir: &SirScheduler,
    histories: &Vec<ItemHistory>,
    concepts: &Vec<Concept>,
    now: i64,
) -> (plan: DailyPlan)
    ensures
        plan.date == now,
        plan.diagnostics@.len() == diagnostic_items(histories@).len(),
        forall|k: int|
            0 <= k < plan.diagnostics@.len() ==> is_diagnostic_entry(
                #[trigger] plan.diagnostics@[k],
                diagnostic_items(histories@)[k],
            ),
        plan.reviews@.len() == review_items(histories@, now).len(),
        forall|k: int|
            0 <= k < plan.reviews@.len() ==> is_review_entry(
                #[trigger] plan.reviews@[k],
                review_items(histories@, now)[k],
            ),
        plan.total_items == plan.reviews@.len() + plan.diagnostics@.len(),
        plan.estimated_time_min == MINUTES_PER_ITEM * plan.total_items,
        (plan.coverage_percent.numerator as int, plan.coverage_percent.denominator as int)
            == coverage_fraction(attempted_concept_ids(histories@).to_set().len(), concepts@.len()),
        plan.reviews@.len() <= MAX_REVIEWS,
        plan.diagnostics@.len() <= MAX_DIAGNOSTICS,
        forall|i: int, j: int|
            0 <= i <= j < plan.reviews@.len() ==> (#[trigger] plan.reviews@[i]).priority >= (
            #[trigger] plan.reviews@[j]).priority,
{
    let new_picks = first_matching(sir, histories, now, false, MAX_DIAGNOSTICS);
    let due_picks = first_matching(sir, histories, now, true, MAX_REVIEWS);
    let ghost diagnosed = diagnostic_items(histories@);
    let ghost candidates = review_candidates(histories@, now);

    let mut diagnostics: Vec<PlannedItem> = Vec::new();
    let mut k: usize = 0;
    while k < new_picks.len()
        invariant
            k <= new_picks.len(),
            new_picks@.len() == diagnosed.len(),
            diagnosed == picked(histories@, new_picks@),
            forall|m: int|
                0 <= m < new_picks@.len() ==> (#[trigger] new_picks@[m]) < histories.len(),
            diagnostics@.len() == k,
            forall|m: int|
                0 <= m < k ==> is_diagnostic_entry(#[trigger] diagnostics@[m], diagnosed[m]),
        decreases new_picks.len() - k,
    {
        let history = &histories[new_picks[k]];
        let entry = plan_entry(history, "new_concept", DIAGNOSTIC_PRIORITY);
        diagnostics.push(entry);
        k = k + 1;
    }

    proof {
        assert forall|m: int| 0 <= m < due_picks@.len() implies (
        #[trigger] histories@[due_picks@[m] as int]).attempts@.len() > 0 by {
            lemma_first_few_keeps(histories@.filter(due_pred(now)), MAX_REVIEWS as int, m);
        }
    }
    let mut reviews: Vec<PlannedItem> = Vec::new();
    let fragile_shown = push_reviews(
        histories,
        &due_picks,
        true,
        &mut reviews,
        Ghost(Seq::empty()),
    );
    let all_shown = push_reviews(histories, &due_picks, false, &mut reviews, fragile_shown);
    proof {
        lemma_partition_len(candidates);
    }

    let total_items: i32 = (reviews.len() + diagnostics.len()) as i32;
    DailyPlan {
        date: now,
        reviews,
        diagnostics,
        total_items,
        estimated_time_min: MINUTES_PER_ITEM * total_items,
        coverage_percent: coverage_percent(count_attempted_concepts(histories), concepts.len()),
    }
}

/// What `first_few` keeps stands where it stood.
proof fn lemma_first_few_keeps(all: Seq<ItemHistory>, most: int, k: int)
    requires
        0 <= most,
        0 <= k < first_few(all, most).len(),
    ensures
        k < all.len(),
        first_few(all, most)[k] == all[k],
        first_few(all, most).len() <= most,
{
}

/// The fragile and the other candidates together are all the candidates.
proof fn lemma_partition_len(candidates: Seq<ItemHistory>)
    ensures
        candidates.filter(fragile_pred()).len() + candidates.filter(sturdy_pred()).len()
            == candidates.len(),
    decreases candidates.len(),
{
    if candidates.len() == 0 {
        assert(candidates.filter(fragile_pred()) =~= Seq::<ItemHistory>::empty()) by {
        }
        assert(candidates.filter(sturdy_pred()) =~= Seq::<ItemHistory>::empty()) by {
        }
    } else {
        let front = candidates.drop_last();
        let last = candidates.last();
        lemma_partition_len(front);
        assert(candidates =~= front.push(last));
        front.lemma_filter_push(last, fragile_pred());
        front.lemma_filter_push(last, sturdy_pred());
    }
}

} // verus!
