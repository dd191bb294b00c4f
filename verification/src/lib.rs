//! A single-slot container holding zero or one value of a generic type.
//!
//! The container, [`CellOpt`], is always in one of two states: `Empty` or
//! `Occupied(value)`. Callers may take the value out, put one back, insert
//! only-if-empty, or run a computation over the held value and restore or
//! replace it, with explicit error values at the two boundary conditions
//! (taking from an empty slot, inserting into an occupied one).
//!
//! The state a container is in, and what each operation does to it, is
//! captured by the spec-level transition functions in [`model`]; the proofs in
//! [`laws`] state the algebraic consequences of those transitions.

pub mod errors;
pub mod model;
pub mod cell;
pub mod laws;

pub use cell::CellOpt;
pub use errors::Error;
pub use errors::InsertErr;
