//! Readback: from a value to its normal form, and the definitional equality
//! that compares normal forms.

use crate::env::share;
use crate::error::Error;
use crate::eval::enter;
use crate::names::{fresh, fresh_name};
use crate::semantics::{neutral_spec, neutral_var, readback_spec, veq_spec};
use crate::term::{Term, TermView};
use crate::value::{Neutral, Value};
use std::rc::Rc;
use vstd::prelude::*;

verus! {

/// The model of what a procedure that computes a term returned.
pub open spec fn term_outcome(r: Result<Rc<Term>, Error>) -> Result<TermView, Error> {
    match r {
        Ok(t) => Ok(t@),
        Err(e) => Err(e),
    }
}

/// The value that stands for the variable bound at depth `k`.
pub(crate) fn fresh_var(k: usize) -> (r: Rc<Value>)
    ensures
        r@ == neutral_var(fresh_name(k as nat)),
{
    proof {
        reveal_with_fuel(Value::model, 2);
        reveal_with_fuel(Neutral::model, 2);
    }
    Rc::new(Value::Neutral(Rc::new(Neutral::Var(fresh(k)))))
}

/// Reads the value `v` back into its normal form under `k` binders, going
/// at most `fuel` steps deep.
///
/// The depth may not outgrow the machine's numbers while the recursion
/// lasts, which is what the precondition asks.
pub fn readback(fuel: usize, k: usize, v: &Value) -> (r: Result<Rc<Term>, Error>)
    requires
        k + fuel <= usize::MAX,
    ensures
        term_outcome(r) == readback_spec(fuel as nat, k as nat, v@),
    decreases fuel, 0nat,
{
    proof {
        reveal_with_fuel(Term::model, 2);
    }
    if fuel == 0 {
        return Err(Error::FuelExhausted);
    }
    let f: usize = fuel - 1;
    match v {
        Value::Closure(c) => {
            let r = enter(f, c, fresh_var(k))?;
            let b = readback(f, k + 1, &r)?;
            Ok(Rc::new(Term::Abs(fresh(k), b)))
        },
        Value::Pi(a, c) => {
            let at = readback(f, k, a)?;
            let r = enter(f, c, fresh_var(k))?;
            let b = readback(f, k + 1, &r)?;
            Ok(Rc::new(Term::Pi(fresh(k), at, b)))
        },
        Value::Universe(n) => Ok(Rc::new(Term::Type(*n))),
        Value::Nat => Ok(Rc::new(Term::Nat)),
        Value::Zero => Ok(Rc::new(Term::Zero)),
        Value::Succ(n) => {
            let nt = readback(f, k, n)?;
            Ok(Rc::new(Term::Succ(nt)))
        },
        Value::Id(a, t, u) => {
            let at = readback(f, k, a)?;
            let tt = readback(f, k, t)?;
            let ut = readback(f, k, u)?;
            Ok(Rc::new(Term::Id(at, tt, ut)))
        },
        Value::Refl(t) => {
            let tt = readback(f, k, t)?;
            Ok(Rc::new(Term::Refl(tt)))
        },
        Value::Neutral(n) => neutral(f, k, n),
    }
}

/// Reads the stuck computation `n` back into its normal form under `k`
/// binders.
pub fn neutral(fuel: usize, k: usize, n: &Neutral) -> (r: Result<Rc<Term>, Error>)
    requires
        k + fuel <= usize::MAX,
    ensures
        term_outcome(r) == neutral_spec(fuel as nat, k as nat, n@),
    decreases fuel, 1nat, n,
{
    proof {
        reveal_with_fuel(Term::model, 2);
    }
    match n {
        Neutral::Var(x) => Ok(Rc::new(Term::Var(x.clone()))),
        Neutral::App(m, v) => {
            let mt = neutral(fuel, k, m)?;
            let vt = readback(fuel, k, v)?;
            Ok(Rc::new(Term::App(mt, vt)))
        },
        Neutral::NatElim(m, a, z, s) => {
            let mt = neutral(fuel, k, m)?;
            let at = readback(fuel, k, a)?;
            let zt = readback(fuel, k, z)?;
            let st = readback(fuel, k, s)?;
            Ok(Rc::new(Term::Ind(mt, at, zt, st)))
        },
        Neutral::IdElim(a, r, t, u, m) => {
            let at = readback(fuel, k, a)?;
            let rt = readback(fuel, k, r)?;
            let tt = readback(fuel, k, t)?;
            let ut = readback(fuel, k, u)?;
            let mt = neutral(fuel, k, m)?;
            Ok(Rc::new(Term::J(at, rt, tt, ut, mt)))
        },
    }
}

/// Decides whether `u` and `v` are definitionally equal under `k` binders:
/// whether they have the same normal form.
///
/// This is the only notion of equality on values. Both sides are always
/// normalized in full.
pub fn veq(fuel: usize, k: usize, u: &Value, v: &Value) -> (r: Result<bool, Error>)
    requires
        k + fuel <= usize::MAX,
    ensures
        r == veq_spec(fuel as nat, k as nat, u@, v@),
{
    let ut = readback(fuel, k, u)?;
    let vt = readback(fuel, k, v)?;
    Ok(ut.same(&vt))
}

} // verus!
