//! Concepts from comma-separated text: one concept for every row that has a
//! name and a domain.

use vstd::prelude::*;

use crate::clock::shown_by_clock;
use crate::ids::ID_LENGTH;
use crate::models::Concept;

verus! {

/// What the `csv` reader makes of a text: the rows after the header row, up
/// to the first row that it cannot read, each as its fields, and the message
/// of the error that stopped it, if one did.
pub uninterp spec fn csv_rows(content: Seq<char>) -> (Seq<Seq<Seq<char>>>, Option<Seq<char>>);

/// The text of every field of every row.
pub open spec fn rows_text(rows: Seq<Vec<String>>) -> Seq<Seq<Seq<char>>> {
    Seq::new(rows.len(), |i: int| Seq::new(rows[i]@.len(), |j: int| rows[i]@[j]@))
}

/// The text of a message, if there is one.
pub open spec fn message_text(message: Option<String>) -> Option<Seq<char>> {
    match message {
        Some(text) => Some(text@),
        None => None,
    }
}

/// Reads a text with `csv::Reader::from_reader` in its default
/// configuration and walks `Reader::records`, copying the fields of every
/// record until a record fails, whose error is then written out with
/// `to_string`.
///
/// Nothing is proved of this function. Its contract says only that what it
/// returns is what the reader makes of the text, which depends on the text
/// alone.
#[verifier::external_body]
pub(crate) fn read_rows(content: &str) -> (read: (Vec<Vec<String>>, Option<String>))
    ensures
        (rows_text(read.0@), message_text(read.1)) == csv_rows(content@),
{
    let mut reader = csv::Reader::from_reader(content.as_bytes());
    let mut rows = Vec::new();
    for result in reader.records() {
        match result {
            Ok(record) => rows.push(record.iter().map(|field| field.to_string()).collect()),
            Err(error) => return (rows, Some(error.to_string())),
        }
    }
    (rows, None)
}

/// A row gives a concept when it has at least two fields and the first, the
/// name, is not empty.
pub open spec fn is_concept_row(row: Seq<Seq<char>>) -> bool {
    row.len() >= 2 && row[0].len() > 0
}

/// The predicate `is_concept_row`, as a value.
pub open spec fn concept_rows() -> spec_fn(Seq<Seq<char>>) -> bool {
    |row: Seq<Seq<char>>| is_concept_row(row)
}

/// `concept` is the new concept that `row` gives: its name is the first
/// field, its domain the second, and it has nothing else yet.
pub open spec fn is_concept_of(concept: Concept, row: Seq<Seq<char>>) -> bool {
    &&& concept.id@.len() == ID_LENGTH
    &&& concept.name@ == row[0]
    &&& concept.domain@ == row[1]
    &&& concept.subdomain is None
    &&& concept.description is None
    &&& concept.tags@.len() == 0
    &&& concept.learning_material_id is None
    &&& shown_by_clock(concept.created_at)
    &&& concept.updated_at == concept.created_at
}

/// One new concept for every row that gives one, in the order of the rows.
pub fn concepts_from_rows(rows: &Vec<Vec<String>>) -> (concepts: Vec<Concept>)
    ensures
        concepts@.len() == rows_text(rows@).filter(concept_rows()).len(),
        forall|k: int|
            0 <= k < concepts@.len() ==> is_concept_of(
                #[trigger] concepts@[k],
                rows_text(rows@).filter(concept_rows())[k],
            ),
{
    let ghost all = rows_text(rows@);
    let mut concepts: Vec<Concept> = Vec::new();
    let mut i: usize = 0;
    while i < rows.len()
        invariant
            i <= rows.len(),
            all == rows_text(rows@),
            concepts@.len() == all.take(i as int).filter(concept_rows()).len(),
            forall|k: int|
                0 <= k < concepts@.len() ==> is_concept_of(
                    #[trigger] concepts@[k],
                    all.take(i as int).filter(concept_rows())[k],
                ),
        decreases rows.len() - i,
    {
        let row = &rows[i];
        proof {
            all.lemma_take_succ_push(i as int);
            all.take(i as int).lemma_filter_push(all[i as int], concept_rows());
        }
        if row.len() >= 2 && !row[0].as_str().is_empty() {
            let concept = Concept::new(row[0].clone(), row[1].clone());
            concepts.push(concept);
        }
        i = i + 1;
    }
    assert(all.take(i as int) == all);
    concepts
}

/// The concepts that a comma-separated text gives, and the message of the
/// error that stopped the reading, if one did. The first row of the text is
/// its header. Rows before a row that cannot be read still give their
/// concepts.
pub fn import_concepts_from_csv(csv_content: &str) -> (imported: (Vec<Concept>, Option<String>))
    ensures
        imported.0@.len() == csv_rows(csv_content@).0.filter(concept_rows()).len(),
        forall|k: int|
            0 <= k < imported.0@.len() ==> is_concept_of(
                #[trigger] imported.0@[k],
                csv_rows(csv_content@).0.filter(concept_rows())[k],
            ),
        message_text(imported.1) == csv_rows(csv_content@).1,
{
    let (rows, error) = read_rows(csv_content);
    (concepts_from_rows(&rows), error)
}

} // verus!
