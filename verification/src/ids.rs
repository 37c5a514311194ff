//! Fresh identifiers.

use vstd::prelude::*;

verus! {

/// Number of characters in the hyphenated text form of a UUID.
pub const ID_LENGTH: usize = 36;

/// A new random identifier: `uuid::Uuid::new_v4`, written out in its
/// hyphenated lower-case form by `to_string`.
///
/// Nothing is proved of this function. The identifier is random, so the
/// contract gives only what holds of every UUID in that form, its length.
/// `new_v4` panics when the operating system hands out no random bytes.
#[verifier::external_body]
pub(crate) fn fresh_id() -> (id: String)
    ensures
        id@.len() == ID_LENGTH,
{
    uuid::Uuid::new_v4().to_string()
}

} // verus!
