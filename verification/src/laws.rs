//! Proved laws relating the slot operations through their transition model.

use vstd::prelude::*;

use crate::errors::Error;
use crate::errors::InsertErr;
use crate::model::insert_step;
use crate::model::occupancy;
use crate::model::overwrite_step;
use crate::model::take_step;

verus! {

/// A slot constructed around a value is occupied; a slot constructed empty
/// is not.
pub proof fn lemma_fresh_occupancy<T>(v: T)
    ensures
        occupancy(Some(v)),
        !occupancy(None::<T>),
{
}

/// Taking from a slot that was freshly constructed around `v` succeeds with
/// exactly `v` and empties the slot; an immediate second take reports
/// `Error::Empty` and the slot stays empty.
pub proof fn lemma_take_after_new<T>(v: T)
    ensures
        take_step(Some(v)).1 == Ok::<T, Error>(v),
        take_step(Some(v)).0 is None,
        take_step(take_step(Some(v)).0).1 == Err::<T, Error>(Error::Empty),
        take_step(take_step(Some(v)).0).0 is None,
{
}

/// Inserting `v1` into an empty slot succeeds and the slot then holds `v1`;
/// a subsequent insert of `v2` fails with `Error::Occupied`, hands `v2` back
/// unconsumed, and the slot still holds `v1`.
pub proof fn lemma_insert_then_insert<T>(v1: T, v2: T)
    ensures
        insert_step(None::<T>, v1).1 == Ok::<(), InsertErr<T>>(()),
        insert_step(None::<T>, v1).0 == Some(v1),
        (insert_step(insert_step(None::<T>, v1).0, v2).1 matches Err(e)
            && e.insert_try == v2 && e.err is Occupied),
        insert_step(insert_step(None::<T>, v1).0, v2).0 == Some(v1),
{
}

/// An overwrite results in a slot holding exactly the new value, whatever
/// state the slot was in before.
pub proof fn lemma_overwrite_from_any_state<T>(slot: Option<T>, v: T)
    ensures
        overwrite_step(slot, v) == Some(v),
{
}

} // verus!
