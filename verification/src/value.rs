//! The semantic domain: values, closures and stuck computations.
//!
//! A function value is never an opaque host function. It is a closure: the
//! environment captured where the binder was met, the bound name and the
//! unevaluated body, so that it can be entered again symbolically when the
//! value is read back.

use crate::env::{env_entries, Env};
use crate::term::{Term, TermView};
use std::rc::Rc;
use vstd::prelude::*;

verus! {

/// A deferred function: a body waiting for the value of its parameter.
pub struct Closure {
    /// The environment captured at the binder.
    pub env: Env,
    /// The bound name.
    pub param: String,
    /// The unevaluated body.
    pub body: Rc<Term>,
}

/// The result of evaluating a term.
pub enum Value {
    /// A function.
    Closure(Closure),
    /// A dependent function type: the domain and the codomain, which waits
    /// for the argument.
    Pi(Rc<Value>, Closure),
    /// The universe of the given level.
    Universe(usize),
    /// The type of natural numbers.
    Nat,
    /// The number zero.
    Zero,
    /// The successor of a number.
    Succ(Rc<Value>),
    /// An identity type: the type of the two sides, then the sides.
    Id(Rc<Value>, Rc<Value>, Rc<Value>),
    /// The proof that a value equals itself.
    Refl(Rc<Value>),
    /// A computation stuck on a free variable.
    Neutral(Rc<Neutral>),
}

/// A computation that cannot proceed until its head variable is known. The
/// structure around the head records the eliminations that wait for it.
pub enum Neutral {
    /// A free variable.
    Var(String),
    /// A stuck function applied to an argument.
    App(Rc<Neutral>, Rc<Value>),
    /// The eliminator of natural numbers on a stuck number, with the motive
    /// and the two cases.
    NatElim(Rc<Neutral>, Rc<Value>, Rc<Value>, Rc<Value>),
    /// The eliminator of identity proofs on a stuck proof, with the motive,
    /// the case for `Refl` and the two sides.
    IdElim(Rc<Value>, Rc<Value>, Rc<Value>, Rc<Value>, Rc<Neutral>),
}

/// The mathematical model of an environment or of a typing context: a map
/// from names to the models of values.
pub type EnvView = Map<Seq<char>, ValueView>;

/// The model of the environment that binds no name.
pub open spec fn empty_env() -> EnvView {
    Map::empty()
}

/// The mathematical model of a [`Closure`].
pub struct ClosureView {
    pub env: Map<Seq<char>, ValueView>,
    pub param: Seq<char>,
    pub body: TermView,
}

/// The mathematical model of a [`Value`].
pub enum ValueView {
    Closure(ClosureView),
    Pi(Box<ValueView>, ClosureView),
    Universe(nat),
    Nat,
    Zero,
    Succ(Box<ValueView>),
    Id(Box<ValueView>, Box<ValueView>, Box<ValueView>),
    Refl(Box<ValueView>),
    Neutral(Box<NeutralView>),
}

/// The mathematical model of a [`Neutral`].
pub enum NeutralView {
    Var(Seq<char>),
    App(Box<NeutralView>, Box<ValueView>),
    NatElim(Box<NeutralView>, Box<ValueView>, Box<ValueView>, Box<ValueView>),
    IdElim(Box<ValueView>, Box<ValueView>, Box<ValueView>, Box<ValueView>, Box<NeutralView>),
}

impl Closure {
    /// The model of this closure.
    pub open spec fn model(self) -> ClosureView {
        ClosureView { env: env_entries(self.env), param: self.param@, body: (*self.body).model() }
    }
}

impl View for Closure {
    type V = ClosureView;

    open spec fn view(&self) -> ClosureView {
        self.model()
    }
}

impl Value {
    /// The model of this value.
    pub open spec fn model(self) -> ValueView
        decreases self,
    {
        match self {
            Value::Closure(c) => ValueView::Closure(c.model()),
            Value::Pi(a, c) => ValueView::Pi(Box::new((*a).model()), c.model()),
            Value::Universe(n) => ValueView::Universe(n as nat),
            Value::Nat => ValueView::Nat,
            Value::Zero => ValueView::Zero,
            Value::Succ(n) => ValueView::Succ(Box::new((*n).model())),
            Value::Id(a, t, u) => ValueView::Id(
                Box::new((*a).model()),
                Box::new((*t).model()),
                Box::new((*u).model()),
            ),
            Value::Refl(t) => ValueView::Refl(Box::new((*t).model())),
            Value::Neutral(n) => ValueView::Neutral(Box::new((*n).model())),
        }
    }
}

impl View for Value {
    type V = ValueView;

    open spec fn view(&self) -> ValueView {
        self.model()
    }
}

impl Neutral {
    /// The model of this stuck computation.
    pub open spec fn model(self) -> NeutralView
        decreases self,
    {
        match self {
            Neutral::Var(x) => NeutralView::Var(x@),
            Neutral::App(n, v) => NeutralView::App(
                Box::new((*n).model()),
                Box::new((*v).model()),
            ),
            Neutral::NatElim(n, a, z, s) => NeutralView::NatElim(
                Box::new((*n).model()),
                Box::new((*a).model()),
                Box::new((*z).model()),
                Box::new((*s).model()),
            ),
            Neutral::IdElim(a, r, t, u, p) => NeutralView::IdElim(
                Box::new((*a).model()),
                Box::new((*r).model()),
                Box::new((*t).model()),
                Box::new((*u).model()),
                Box::new((*p).model()),
            ),
        }
    }
}

impl View for Neutral {
    type V = NeutralView;

    open spec fn view(&self) -> NeutralView {
        self.model()
    }
}

} // verus!
