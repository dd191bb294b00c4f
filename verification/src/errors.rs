//! The two boundary conditions a slot operation can report.

use vstd::prelude::*;

verus! {

/// The error kinds raised by slot operations.
///
/// `Empty` is reported by a take from a slot holding no value;
/// `Occupied` is reported by an insert into a slot already holding one.
#[derive(Debug, Clone, Copy)]
pub enum Error {
    Occupied,
    Empty,
}

/// The error value of a failed insert: the rejected value is handed back to
/// the caller unconsumed, together with the error kind.
pub struct InsertErr<T> {
    pub insert_try: T,
    pub err: Error,
}

} // verus!
