//! Fresh identifiers for roster entries and parsed lines.

use vstd::prelude::*;

verus! {

/// Relies on `uuid::Uuid::new_v4` and its `Display`: a random version-4 UUID
/// in its hyphenated text form, which is 36 characters long. Nothing more is
/// promised of its value. It panics only when the operating system's random
/// source fails, which no argument can rule out.
#[verifier::external_body]
pub(crate) fn fresh_id() -> (r: String)
    ensures
        r@.len() == 36,
{
    uuid::Uuid::new_v4().to_string()
}

} // verus!
