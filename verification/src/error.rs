//! The ways in which evaluation, readback and type checking fail.

use vstd::prelude::*;

verus! {

/// Why a judgment was refused. Every failure is final: no procedure of this
/// library recovers from one or reports a partial result.
#[derive(Clone, Copy, Debug, PartialEq, Eq, Structural)]
pub enum Error {
    /// A variable has no type in the typing context.
    UnboundVariable,
    /// Two values that had to be definitionally equal are not, or a type
    /// that had to be a universe is not one.
    TypeMismatch,
    /// No rule applies to the shape at hand: a value that is no function was
    /// applied, a number was eliminated that is none, a function was used at
    /// a type that is no function type, or a type was asked of a term that
    /// has no inference rule.
    ShapeMismatch,
    /// The identity eliminator met a proof that is not stuck on a variable.
    StuckProof,
    /// The recursion went deeper than the bound given by the caller.
    FuelExhausted,
    /// The universe above the one asked for has no representable level.
    LevelOverflow,
}

} // verus!
