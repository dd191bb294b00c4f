//! The single-slot container and its operations.

use vstd::prelude::*;
use vstd::string::StringExecFns;

use crate::errors::Error;
use crate::errors::InsertErr;
use crate::model::insert_step;
use crate::model::occupancy;
use crate::model::overwrite_step;
use crate::model::take_step;

verus! {

/// A container holding zero or one value of type `T`.
///
/// Its view is the abstract state of the slot: `None` when empty,
/// `Some(value)` when occupied.
pub struct CellOpt<T> {
    slot: Option<T>,
}

impl<T> View for CellOpt<T> {
    type V = Option<T>;

    closed spec fn view(&self) -> Option<T> {
        self.slot
    }
}

impl<T> CellOpt<T> {
    /// Constructs a container that starts occupied, holding `value`.
    pub fn new(value: T) -> (r: Self)
        ensures
            r@ == Some(value),
    {
        CellOpt { slot: Some(value) }
    }

    /// Reports whether the slot currently holds a value, with no net effect
    /// on the slot.
    pub fn is_occupied(&self) -> (r: bool)
        ensures
            r == occupancy(self@),
    {
        self.slot.is_some()
    }

    /// Removes and returns the held value, leaving the slot empty. Reports
    /// `Error::Empty`, with no other effect, if the slot held nothing.
    ///
    /// This is the fundamental primitive that removes a value; the other
    /// mutating operations are built from it and `overwrite`.
    pub fn take(&mut self) -> (r: Result<T, Error>)
        ensures
            final(self)@ == take_step(old(self)@).0,
            r == take_step(old(self)@).1,
    {
        match self.slot.take() {
            Some(value) => Ok(value),
            None => Err(Error::Empty),
        }
    }

    /// Unconditionally sets the slot to hold `value`, discarding any value it
    /// held before.
    ///
    /// This is the fundamental primitive that stores a value; the other
    /// mutating operations are built from it and `take`.
    pub fn overwrite(&mut self, value: T)
        ensures
            final(self)@ == overwrite_step(old(self)@, value),
    {
        self.slot = Some(value);
    }

    /// Sets the slot to hold `value` only if it is currently empty. If it
    /// already holds a value, the slot is left untouched and `value` is
    /// handed back unconsumed inside the error.
    pub fn insert(&mut self, value: T) -> (r: Result<(), InsertErr<T>>)
        ensures
            final(self)@ == insert_step(old(self)@, value).0,
            r == insert_step(old(self)@, value).1,
    {
        if self.is_occupied() {
            Err(InsertErr { insert_try: value, err: Error::Occupied })
        } else {
            self.overwrite(value);
            Ok(())
        }
    }

    /// Removes and returns the held value, leaving the slot empty. Callers
    /// must have established that the slot is occupied; there is no
    /// recoverable error path.
    pub fn force_take(&mut self) -> (r: T)
        requires
            occupancy(old(self)@),
        ensures
            r == old(self)@->0,
            final(self)@ is None,
    {
        self.take().unwrap()
    }

    /// If the slot holds a value, consumes it, applies `f`, and stores the
    /// replacement `f` produced. An empty slot is left empty, by design
    /// without an error: an update to nothing is silently skipped.
    pub fn apply_and_update<F: Fn(T) -> T>(&mut self, f: F)
        requires
            occupancy(old(self)@) ==> call_requires(f, (old(self)@->0,)),
        ensures
            old(self)@ is None ==> final(self)@ is None,
            occupancy(old(self)@) ==> final(self)@ is Some && call_ensures(
                f,
                (old(self)@->0,),
                final(self)@->0,
            ),
    {
        match self.take() {
            Ok(value) => self.overwrite(f(value)),
            Err(_) => (),
        }
    }

    /// If the slot holds a value, applies `f` to a reference to it and
    /// returns `Some` of `f`'s result; the held value itself stays in place,
    /// untouched. Returns `None` on an empty slot, without calling `f`.
    pub fn apply_then_restore<U, F: Fn(&T) -> U>(&self, f: F) -> (r: Option<U>)
        requires
            occupancy(self@) ==> call_requires(f, (&self@->0,)),
        ensures
            r is Some <==> occupancy(self@),
            occupancy(self@) ==> call_ensures(f, (&self@->0,), r->0),
    {
        match &self.slot {
            Some(value) => Some(f(value)),
            None => None,
        }
    }

    /// Returns a duplicate of the held value without disturbing occupancy,
    /// or `None` if the slot is empty.
    pub fn clone_inner(&self) -> (r: Option<T>) where T: Clone
        ensures
            r is Some <==> occupancy(self@),
            occupancy(self@) ==> cloned(self@->0, r->0),
    {
        let duplicate = |inner: &T| -> (c: T)
            ensures
                cloned(*inner, c),
            {
                inner.clone()
            };
        self.apply_then_restore(duplicate)
    }

    /// Renders the container for diagnostics without disturbing occupancy:
    /// the held value's own rendering wrapped in the occupied marker, or the
    /// fixed text `None` when the slot is empty.
    pub fn render(&self) -> (r: String) where T: core::fmt::Debug
        ensures
            self@ is None ==> r@ == "None"@,
            occupancy(self@) ==> (exists|d: Seq<char>|
                r@ == #[trigger] ("Option::Some("@ + d) + ")"@),
    {
        match &self.slot {
            Some(value) => {
                let text = debug_text(value);
                render_occupied(text.as_str())
            },
            None => String::from_str("None"),
        }
    }
}

/// Wraps a value's rendered text in the marker that distinguishes an
/// occupied slot's rendering from the empty marker.
pub fn render_occupied(inner_text: &str) -> (r: String)
    ensures
        r@ == "Option::Some("@ + inner_text@ + ")"@,
{
    let mut r = String::from_str("Option::Some(");
    r.append(inner_text);
    r.append(")");
    r
}

/// Relies on std's `format!` with the `Debug` implementation of `T` to turn a
/// value into text; nothing is assumed about the text produced.
#[verifier::external_body]
fn debug_text<T: core::fmt::Debug>(value: &T) -> String {
    format!("{:?}", value)
}

impl<T> Default for CellOpt<T> {
    /// Constructs a container that starts empty.
    fn default() -> (r: Self)
        ensures
            r@ is None,
    {
        CellOpt { slot: None }
    }
}

impl<T: Clone> Clone for CellOpt<T> {
    /// Produces a new, independent container: empty if this one is empty,
    /// and holding a duplicate of the held value if it is occupied.
    fn clone(&self) -> (r: Self)
        ensures
            self@ is None ==> r@ is None,
            occupancy(self@) ==> r@ is Some && cloned(self@->0, r@->0),
    {
        match self.clone_inner() {
            Some(value) => CellOpt::new(value),
            None => CellOpt::default(),
        }
    }
}

} // verus!
