//! The schedule list handed to the frontend.
//!
//! Schedules travel as one serialized text blob: the host stores it
//! verbatim and reads it back verbatim. The only decision made on the
//! way is the fallback: a store that could not be read stands for the
//! empty schedule list.

use vstd::prelude::*;

verus! {

/// The serialized form of the empty schedule list.
pub open spec fn empty_schedules() -> Seq<char> {
    "[]"@
}

/// The text the frontend receives: the stored blob where one was read,
/// and the serialized empty list where none could be.
pub fn schedules_or_default(loaded: Option<String>) -> (r: String)
    ensures
        match loaded {
            Some(stored) => r@ == stored@,
            None => r@ == empty_schedules(),
        },
{
    match loaded {
        Some(stored) => stored,
        None => String::from_str("[]"),
    }
}

} // verus!
