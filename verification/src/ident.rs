//! Identifiers for sessions and spans.

use uuid::Uuid;
use vstd::prelude::*;

verus! {

/// Calls uuid's `Uuid::new_v4` and writes the result with its `Display`
/// impl. The identifier is drawn at random, so nothing is claimed of it:
/// in particular not that it differs from any other. What must be unique
/// is checked where the identifier is used.
#[verifier::external_body]
pub(crate) fn fresh_identifier() -> (id: String) {
    Uuid::new_v4().to_string()
}

} // verus!
