//! A bidirectional type checker for a small dependently typed calculus,
//! built on normalization by evaluation.
//!
//! The calculus has dependent function types, a hierarchy of universes,
//! natural numbers with their eliminator, and identity types with theirs.
//! Terms are evaluated into a semantic domain of values and stuck
//! computations, values are read back into normal forms, and two values are
//! definitionally equal when their normal forms coincide.
//!
//! Every recursive procedure takes a bound on its recursion depth and
//! returns a `Result`, so each of them is a total function. What each one
//! returns is pinned down by a mathematical model:
//!
//! - [`term`], [`value`] and [`env`] hold the data and its models;
//! - [`semantics`] and [`typing`] define evaluation, readback, definitional
//!   equality and the typing judgment on the models;
//! - [`eval`], [`readback`] and [`check`] hold the procedures, each proved
//!   to compute what the model says;
//! - [`fuel`], [`failures`], [`laws`] and [`normal`] prove what holds of the
//!   model: that the bound does not change a result, how evaluation can
//!   fail, the laws of reduction and of equality, and that normal forms are
//!   stable;
//! - [`names`] names the binders that readback introduces;
//! - [`formula`] splits implications into premises and conclusion.

pub mod check;
pub mod env;
pub mod error;
pub mod eval;
pub mod failures;
pub mod formula;
pub mod fuel;
pub mod laws;
pub mod names;
pub mod normal;
pub mod readback;
pub mod semantics;
pub mod term;
pub mod typing;
pub mod value;
