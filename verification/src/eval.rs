//! The evaluator: from a term and an environment to a value.

use crate::env::{share, Env};
use crate::error::Error;
use crate::semantics::{enter_spec, eval_spec, nat_elim_spec, vapp_spec};
use crate::term::Term;
use crate::value::{Closure, Neutral, Value, ValueView};
use std::rc::Rc;
use vstd::prelude::*;

verus! {

/// The model of what a procedure that computes a value returned.
pub open spec fn value_outcome(r: Result<Rc<Value>, Error>) -> Result<ValueView, Error> {
    match r {
        Ok(v) => Ok(v@),
        Err(e) => Err(e),
    }
}

/// Evaluates the term `t` in the environment `env`, going at most `fuel`
/// steps deep.
pub fn eval(fuel: usize, env: &Env, t: &Term) -> (r: Result<Rc<Value>, Error>)
    ensures
        value_outcome(r) == eval_spec(fuel as nat, env@, t@),
    decreases fuel, 0nat,
{
    proof {
        reveal_with_fuel(Value::model, 2);
        reveal_with_fuel(Neutral::model, 2);
    }
    if fuel == 0 {
        return Err(Error::FuelExhausted);
    }
    let f: usize = fuel - 1;
    match t {
        Term::Var(x) => match env.get(x) {
            Some(v) => Ok(v),
            None => Ok(Rc::new(Value::Neutral(Rc::new(Neutral::Var(x.clone()))))),
        },
        Term::Abs(x, b) => Ok(
            Rc::new(Value::Closure(Closure { env: env.clone(), param: x.clone(), body: share(b) })),
        ),
        Term::App(g, a) => {
            let gv = eval(f, env, g)?;
            let av = eval(f, env, a)?;
            vapp(f, &gv, av)
        },
        Term::Pi(x, a, b) => {
            let av = eval(f, env, a)?;
            Ok(
                Rc::new(
                    Value::Pi(av, Closure { env: env.clone(), param: x.clone(), body: share(b) }),
                ),
            )
        },
        Term::Type(n) => Ok(Rc::new(Value::Universe(*n))),
        Term::Nat => Ok(Rc::new(Value::Nat)),
        Term::Zero => Ok(Rc::new(Value::Zero)),
        Term::Succ(n) => {
            let nv = eval(f, env, n)?;
            Ok(Rc::new(Value::Succ(nv)))
        },
        Term::Ind(n, a, z, s) => {
            let nv = eval(f, env, n)?;
            let av = eval(f, env, a)?;
            let zv = eval(f, env, z)?;
            let sv = eval(f, env, s)?;
            nat_elim(f, &nv, &av, &zv, &sv)
        },
        Term::Id(a, t, u) => {
            let av = eval(f, env, a)?;
            let tv = eval(f, env, t)?;
            let uv = eval(f, env, u)?;
            Ok(Rc::new(Value::Id(av, tv, uv)))
        },
        Term::Refl(t) => {
            let tv = eval(f, env, t)?;
            Ok(Rc::new(Value::Refl(tv)))
        },
        Term::J(a, r, t, u, p) => {
            let pv = eval(f, env, p)?;
            match &*pv {
                Value::Neutral(n) => {
                    let av = eval(f, env, a)?;
                    let rv = eval(f, env, r)?;
                    let tv = eval(f, env, t)?;
                    let uv = eval(f, env, u)?;
                    Ok(Rc::new(Value::Neutral(Rc::new(Neutral::IdElim(av, rv, tv, uv, share(n))))))
                },
                _ => Err(Error::StuckProof),
            }
        },
    }
}

/// Evaluates the body of the closure `c` with its parameter bound to `v`.
pub fn enter(fuel: usize, c: &Closure, v: Rc<Value>) -> (r: Result<Rc<Value>, Error>)
    ensures
        value_outcome(r) == enter_spec(fuel as nat, c@, v@),
    decreases fuel, 1nat,
{
    let inner = c.env.insert(c.param.clone(), v);
    eval(fuel, &inner, &c.body)
}

/// Applies the value `u` to the value `v`.
///
/// A closure is entered with `v`; a stuck computation becomes a stuck
/// application; any other value fails with [`Error::ShapeMismatch`].
pub fn vapp(fuel: usize, u: &Value, v: Rc<Value>) -> (r: Result<Rc<Value>, Error>)
    ensures
        value_outcome(r) == vapp_spec(fuel as nat, u@, v@),
    decreases fuel, 2nat,
{
    proof {
        reveal_with_fuel(Value::model, 2);
        reveal_with_fuel(Neutral::model, 2);
    }
    match u {
        Value::Closure(c) => enter(fuel, c, v),
        Value::Neutral(n) => Ok(Rc::new(Value::Neutral(Rc::new(Neutral::App(share(n), v))))),
        _ => Err(Error::ShapeMismatch),
    }
}

/// Eliminates the number `k` by primitive recursion, with the motive `a`,
/// the case `z` for zero and the step `s`.
///
/// Zero gives `z`. A successor gives the step applied to the predecessor and
/// to the result for the predecessor. A stuck number gives a stuck
/// elimination. Any other value fails with [`Error::ShapeMismatch`].
pub fn nat_elim(fuel: usize, k: &Rc<Value>, a: &Rc<Value>, z: &Rc<Value>, s: &Rc<Value>) -> (r:
    Result<Rc<Value>, Error>)
    ensures
        value_outcome(r) == nat_elim_spec(fuel as nat, k@, a@, z@, s@),
    decreases fuel, 3nat, k,
{
    proof {
        reveal_with_fuel(Value::model, 2);
        reveal_with_fuel(Neutral::model, 2);
    }
    match &**k {
        Value::Zero => Ok(share(z)),
        Value::Succ(l) => {
            let step = vapp(fuel, s, share(l))?;
            let rec = nat_elim(fuel, l, a, z, s)?;
            vapp(fuel, &step, rec)
        },
        Value::Neutral(n) => Ok(
            Rc::new(
                Value::Neutral(Rc::new(Neutral::NatElim(share(n), share(a), share(z), share(s)))),
            ),
        ),
        _ => Err(Error::ShapeMismatch),
    }
}

} // verus!
