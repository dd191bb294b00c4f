//! The spec-level model of the slot: its abstract state and the transition
//! each operation performs on it.
//!
//! The abstract state of a slot is an `Option<T>`: `None` for an empty slot,
//! `Some(value)` for an occupied one. Each transition function returns the
//! state after the operation together with the operation's result, and the
//! contracts of the executable operations are stated against them.

use vstd::prelude::*;

use crate::errors::Error;
use crate::errors::InsertErr;

verus! {

/// Whether the slot state holds a value.
pub open spec fn occupancy<T>(slot: Option<T>) -> bool {
    slot is Some
}

/// The transition of a take: the slot is left empty either way; the held
/// value comes back if there was one, and `Error::Empty` if not.
pub open spec fn take_step<T>(slot: Option<T>) -> (Option<T>, Result<T, Error>) {
    match slot {
        Some(v) => (None, Ok(v)),
        None => (None, Err(Error::Empty)),
    }
}

/// The transition of an overwrite: the slot holds `value` afterwards, whatever
/// it held before; a previously held value is discarded.
pub open spec fn overwrite_step<T>(slot: Option<T>, value: T) -> Option<T> {
    Some(value)
}

/// The transition of an insert: an empty slot accepts `value`; an occupied
/// slot is left as it was and `value` is handed back inside the error.
pub open spec fn insert_step<T>(slot: Option<T>, value: T) -> (
    Option<T>,
    Result<(), InsertErr<T>>,
) {
    match slot {
        None => (Some(value), Ok(())),
        Some(held) => (
            Some(held),
            Err(InsertErr { insert_try: value, err: Error::Occupied }),
        ),
    }
}

} // verus!
