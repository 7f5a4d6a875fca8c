//! The syntax of the calculus.
//!
//! A term is an immutable tree whose subterms are shared by reference
//! counting. Its mathematical model, [`TermView`], is the same tree with
//! names as sequences of characters and universe levels as natural numbers.

use std::rc::Rc;
use vstd::prelude::*;

verus! {

/// A term of the calculus.
#[derive(Debug)]
pub enum Term {
    /// A variable.
    Var(String),
    /// A function: the bound name and the body.
    Abs(String, Rc<Term>),
    /// An application of a function to an argument.
    App(Rc<Term>, Rc<Term>),
    /// A dependent function type: the bound name, the domain and the
    /// codomain.
    Pi(String, Rc<Term>, Rc<Term>),
    /// The universe of the given level.
    Type(usize),
    /// The type of natural numbers.
    Nat,
    /// The number zero.
    Zero,
    /// The successor of a number.
    Succ(Rc<Term>),
    /// The eliminator of natural numbers: the number, the motive, the case
    /// for zero and the case for a successor.
    Ind(Rc<Term>, Rc<Term>, Rc<Term>, Rc<Term>),
    /// An identity type: the type of the two sides, then the sides.
    Id(Rc<Term>, Rc<Term>, Rc<Term>),
    /// The proof that a term equals itself.
    Refl(Rc<Term>),
    /// The eliminator of identity proofs: the motive, the case for `Refl`,
    /// the two sides and the proof.
    J(Rc<Term>, Rc<Term>, Rc<Term>, Rc<Term>, Rc<Term>),
}

/// The mathematical model of a [`Term`].
pub enum TermView {
    Var(Seq<char>),
    Abs(Seq<char>, Box<TermView>),
    App(Box<TermView>, Box<TermView>),
    Pi(Seq<char>, Box<TermView>, Box<TermView>),
    Type(nat),
    Nat,
    Zero,
    Succ(Box<TermView>),
    Ind(Box<TermView>, Box<TermView>, Box<TermView>, Box<TermView>),
    Id(Box<TermView>, Box<TermView>, Box<TermView>),
    Refl(Box<TermView>),
    J(Box<TermView>, Box<TermView>, Box<TermView>, Box<TermView>, Box<TermView>),
}

impl Term {
    /// The model of this term.
    pub open spec fn model(self) -> TermView
        decreases self,
    {
        match self {
            Term::Var(x) => TermView::Var(x@),
            Term::Abs(x, b) => TermView::Abs(x@, Box::new((*b).model())),
            Term::App(f, a) => TermView::App(Box::new((*f).model()), Box::new((*a).model())),
            Term::Pi(x, a, b) => TermView::Pi(
                x@,
                Box::new((*a).model()),
                Box::new((*b).model()),
            ),
            Term::Type(n) => TermView::Type(n as nat),
            Term::Nat => TermView::Nat,
            Term::Zero => TermView::Zero,
            Term::Succ(n) => TermView::Succ(Box::new((*n).model())),
            Term::Ind(n, a, z, s) => TermView::Ind(
                Box::new((*n).model()),
                Box::new((*a).model()),
                Box::new((*z).model()),
                Box::new((*s).model()),
            ),
            Term::Id(a, t, u) => TermView::Id(
                Box::new((*a).model()),
                Box::new((*t).model()),
                Box::new((*u).model()),
            ),
            Term::Refl(t) => TermView::Refl(Box::new((*t).model())),
            Term::J(a, r, t, u, p) => TermView::J(
                Box::new((*a).model()),
                Box::new((*r).model()),
                Box::new((*t).model()),
                Box::new((*u).model()),
                Box::new((*p).model()),
            ),
        }
    }
}

impl View for Term {
    type V = TermView;

    open spec fn view(&self) -> TermView {
        self.model()
    }
}

impl Term {
    /// Structural equality of two terms.
    pub fn same(&self, other: &Term) -> (r: bool)
        ensures
            r == (self@ == other@),
        decreases self,
    {
        match self {
            Term::Var(x) => match other {
                Term::Var(y) => *x == *y,
                _ => false,
            },
            Term::Abs(x, b) => match other {
                Term::Abs(y, c) => *x == *y && b.same(c),
                _ => false,
            },
            Term::App(f, a) => match other {
                Term::App(g, b) => f.same(g) && a.same(b),
                _ => false,
            },
            Term::Pi(x, a, b) => match other {
                Term::Pi(y, c, d) => *x == *y && a.same(c) && b.same(d),
                _ => false,
            },
            Term::Type(m) => match other {
                Term::Type(n) => *m == *n,
                _ => false,
            },
            Term::Nat => match other {
                Term::Nat => true,
                _ => false,
            },
            Term::Zero => match other {
                Term::Zero => true,
                _ => false,
            },
            Term::Succ(m) => match other {
                Term::Succ(n) => m.same(n),
                _ => false,
            },
            Term::Ind(n, a, z, s) => match other {
                Term::Ind(m, b, y, r) => n.same(m) && a.same(b) && z.same(y) && s.same(r),
                _ => false,
            },
            Term::Id(a, t, u) => match other {
                Term::Id(b, v, w) => a.same(b) && t.same(v) && u.same(w),
                _ => false,
            },
            Term::Refl(t) => match other {
                Term::Refl(u) => t.same(u),
                _ => false,
            },
            Term::J(a, r, t, u, p) => match other {
                Term::J(b, s, v, w, q) => a.same(b) && r.same(s) && t.same(v) && u.same(w)
                    && p.same(q),
                _ => false,
            },
        }
    }
}

} // verus!
