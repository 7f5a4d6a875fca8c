//! The meaning of evaluation, readback and definitional equality, as
//! mathematical functions on the models of terms and values.
//!
//! Evaluation of an untyped term need not end, so each function takes a
//! bound on its recursion depth: with bound `0` it fails with
//! [`Error::FuelExhausted`], and each step inward lowers the bound by one.
//! A result other than that failure does not depend on the bound that was
//! given (see `laws`).

use crate::error::Error;
use crate::names::fresh_name;
use crate::term::TermView;
use crate::value::{ClosureView, EnvView, NeutralView, ValueView};
use vstd::prelude::*;

verus! {

/// The value that stands for the free variable `x`.
pub open spec fn neutral_var(x: Seq<char>) -> ValueView {
    ValueView::Neutral(Box::new(NeutralView::Var(x)))
}

/// The value of the term `t` in the environment `env`.
///
/// Evaluation is call by value and stops at binders: a function and the
/// codomain of a function type become closures. A variable without a
/// binding evaluates to itself, as a stuck computation.
pub open spec fn eval_spec(fuel: nat, env: EnvView, t: TermView) -> Result<ValueView, Error>
    decreases fuel, 0nat,
{
    if fuel == 0 {
        Err(Error::FuelExhausted)
    } else {
        let f = (fuel - 1) as nat;
        match t {
            TermView::Var(x) => if env.contains_key(x) {
                Ok(env[x])
            } else {
                Ok(neutral_var(x))
            },
            TermView::Abs(x, b) => Ok(
                ValueView::Closure(ClosureView { env: env, param: x, body: *b }),
            ),
            TermView::App(g, a) => match eval_spec(f, env, *g) {
                Err(e) => Err(e),
                Ok(gv) => match eval_spec(f, env, *a) {
                    Err(e) => Err(e),
                    Ok(av) => vapp_spec(f, gv, av),
                },
            },
            TermView::Pi(x, a, b) => match eval_spec(f, env, *a) {
                Err(e) => Err(e),
                Ok(av) => Ok(
                    ValueView::Pi(Box::new(av), ClosureView { env: env, param: x, body: *b }),
                ),
            },
            TermView::Type(n) => Ok(ValueView::Universe(n)),
            TermView::Nat => Ok(ValueView::Nat),
            TermView::Zero => Ok(ValueView::Zero),
            TermView::Succ(n) => match eval_spec(f, env, *n) {
                Err(e) => Err(e),
                Ok(nv) => Ok(ValueView::Succ(Box::new(nv))),
            },
            TermView::Ind(n, a, z, s) => match eval_spec(f, env, *n) {
                Err(e) => Err(e),
                Ok(nv) => match eval_spec(f, env, *a) {
                    Err(e) => Err(e),
                    Ok(av) => match eval_spec(f, env, *z) {
                        Err(e) => Err(e),
                        Ok(zv) => match eval_spec(f, env, *s) {
                            Err(e) => Err(e),
                            Ok(sv) => nat_elim_spec(f, nv, av, zv, sv),
                        },
                    },
                },
            },
            TermView::Id(a, t, u) => match eval_spec(f, env, *a) {
                Err(e) => Err(e),
                Ok(av) => match eval_spec(f, env, *t) {
                    Err(e) => Err(e),
                    Ok(tv) => match eval_spec(f, env, *u) {
                        Err(e) => Err(e),
                        Ok(uv) => Ok(ValueView::Id(Box::new(av), Box::new(tv), Box::new(uv))),
                    },
                },
            },
            TermView::Refl(t) => match eval_spec(f, env, *t) {
                Err(e) => Err(e),
                Ok(tv) => Ok(ValueView::Refl(Box::new(tv))),
            },
            TermView::J(a, r, t, u, p) => match eval_spec(f, env, *p) {
                Err(e) => Err(e),
                Ok(ValueView::Neutral(n)) => match eval_spec(f, env, *a) {
                    Err(e) => Err(e),
                    Ok(av) => match eval_spec(f, env, *r) {
                        Err(e) => Err(e),
                        Ok(rv) => match eval_spec(f, env, *t) {
                            Err(e) => Err(e),
                            Ok(tv) => match eval_spec(f, env, *u) {
                                Err(e) => Err(e),
                                Ok(uv) => Ok(
                                    ValueView::Neutral(
                                        Box::new(
                                            NeutralView::IdElim(
                                                Box::new(av),
                                                Box::new(rv),
                                                Box::new(tv),
                                                Box::new(uv),
                                                n,
                                            ),
                                        ),
                                    ),
                                ),
                            },
                        },
                    },
                },
                Ok(_) => Err(Error::StuckProof),
            },
        }
    }
}

/// The value of a closure's body once its parameter is bound to `v`.
pub open spec fn enter_spec(fuel: nat, c: ClosureView, v: ValueView) -> Result<ValueView, Error>
    decreases fuel, 1nat,
{
    eval_spec(fuel, c.env.insert(c.param, v), c.body)
}

/// The value of `u` applied to `v`: a closure is entered, a stuck
/// computation stays stuck with one more argument, and nothing else can be
/// applied.
pub open spec fn vapp_spec(fuel: nat, u: ValueView, v: ValueView) -> Result<ValueView, Error>
    decreases fuel, 2nat,
{
    match u {
        ValueView::Closure(c) => enter_spec(fuel, c, v),
        ValueView::Neutral(n) => Ok(
            ValueView::Neutral(Box::new(NeutralView::App(n, Box::new(v)))),
        ),
        _ => Err(Error::ShapeMismatch),
    }
}

/// Primitive recursion on the number `k`, with the motive `a`, the case `z`
/// for zero and the step `s`, which receives the predecessor and the result
/// for the predecessor.
pub open spec fn nat_elim_spec(
    fuel: nat,
    k: ValueView,
    a: ValueView,
    z: ValueView,
    s: ValueView,
) -> Result<ValueView, Error>
    decreases fuel, 3nat, k,
{
    match k {
        ValueView::Zero => Ok(z),
        ValueView::Succ(l) => match vapp_spec(fuel, s, *l) {
            Err(e) => Err(e),
            Ok(step) => match nat_elim_spec(fuel, *l, a, z, s) {
                Err(e) => Err(e),
                Ok(rec) => vapp_spec(fuel, step, rec),
            },
        },
        ValueView::Neutral(n) => Ok(
            ValueView::Neutral(
                Box::new(NeutralView::NatElim(n, Box::new(a), Box::new(z), Box::new(s))),
            ),
        ),
        _ => Err(Error::ShapeMismatch),
    }
}

/// The normal form of the value `v` under `k` binders.
///
/// The binder crossed at depth `k` is named [`fresh_name`]`(k)`. A closure is
/// entered with the variable of that name and its result is read back one
/// level deeper, so the normal form of a function is always a function.
pub open spec fn readback_spec(fuel: nat, k: nat, v: ValueView) -> Result<TermView, Error>
    decreases fuel, 0nat,
{
    if fuel == 0 {
        Err(Error::FuelExhausted)
    } else {
        let f = (fuel - 1) as nat;
        match v {
            ValueView::Closure(c) => match enter_spec(f, c, neutral_var(fresh_name(k))) {
                Err(e) => Err(e),
                Ok(r) => match readback_spec(f, k + 1, r) {
                    Err(e) => Err(e),
                    Ok(b) => Ok(TermView::Abs(fresh_name(k), Box::new(b))),
                },
            },
            ValueView::Pi(a, c) => match readback_spec(f, k, *a) {
                Err(e) => Err(e),
                Ok(at) => match enter_spec(f, c, neutral_var(fresh_name(k))) {
                    Err(e) => Err(e),
                    Ok(r) => match readback_spec(f, k + 1, r) {
                        Err(e) => Err(e),
                        Ok(b) => Ok(TermView::Pi(fresh_name(k), Box::new(at), Box::new(b))),
                    },
                },
            },
            ValueView::Universe(n) => Ok(TermView::Type(n)),
            ValueView::Nat => Ok(TermView::Nat),
            ValueView::Zero => Ok(TermView::Zero),
            ValueView::Succ(n) => match readback_spec(f, k, *n) {
                Err(e) => Err(e),
                Ok(nt) => Ok(TermView::Succ(Box::new(nt))),
            },
            ValueView::Id(a, t, u) => match readback_spec(f, k, *a) {
                Err(e) => Err(e),
                Ok(at) => match readback_spec(f, k, *t) {
                    Err(e) => Err(e),
                    Ok(tt) => match readback_spec(f, k, *u) {
                        Err(e) => Err(e),
                        Ok(ut) => Ok(TermView::Id(Box::new(at), Box::new(tt), Box::new(ut))),
                    },
                },
            },
            ValueView::Refl(t) => match readback_spec(f, k, *t) {
                Err(e) => Err(e),
                Ok(tt) => Ok(TermView::Refl(Box::new(tt))),
            },
            ValueView::Neutral(n) => neutral_spec(f, k, *n),
        }
    }
}

/// The normal form of the stuck computation `n` under `k` binders: the
/// eliminations that wait, around the head variable, with every value they
/// carry read back.
pub open spec fn neutral_spec(fuel: nat, k: nat, n: NeutralView) -> Result<TermView, Error>
    decreases fuel, 1nat, n,
{
    match n {
        NeutralView::Var(x) => Ok(TermView::Var(x)),
        NeutralView::App(m, v) => match neutral_spec(fuel, k, *m) {
            Err(e) => Err(e),
            Ok(mt) => match readback_spec(fuel, k, *v) {
                Err(e) => Err(e),
                Ok(vt) => Ok(TermView::App(Box::new(mt), Box::new(vt))),
            },
        },
        NeutralView::NatElim(m, a, z, s) => match neutral_spec(fuel, k, *m) {
            Err(e) => Err(e),
            Ok(mt) => match readback_spec(fuel, k, *a) {
                Err(e) => Err(e),
                Ok(at) => match readback_spec(fuel, k, *z) {
                    Err(e) => Err(e),
                    Ok(zt) => match readback_spec(fuel, k, *s) {
                        Err(e) => Err(e),
                        Ok(st) => Ok(
                            TermView::Ind(
                                Box::new(mt),
                                Box::new(at),
                                Box::new(zt),
                                Box::new(st),
                            ),
                        ),
                    },
                },
            },
        },
        NeutralView::IdElim(a, r, t, u, m) => match readback_spec(fuel, k, *a) {
            Err(e) => Err(e),
            Ok(at) => match readback_spec(fuel, k, *r) {
                Err(e) => Err(e),
                Ok(rt) => match readback_spec(fuel, k, *t) {
                    Err(e) => Err(e),
                    Ok(tt) => match readback_spec(fuel, k, *u) {
                        Err(e) => Err(e),
                        Ok(ut) => match neutral_spec(fuel, k, *m) {
                            Err(e) => Err(e),
                            Ok(mt) => Ok(
                                TermView::J(
                                    Box::new(at),
                                    Box::new(rt),
                                    Box::new(tt),
                                    Box::new(ut),
                                    Box::new(mt),
                                ),
                            ),
                        },
                    },
                },
            },
        },
    }
}

/// Definitional equality of `u` and `v` under `k` binders: both are read
/// back, and their normal forms are compared.
pub open spec fn veq_spec(fuel: nat, k: nat, u: ValueView, v: ValueView) -> Result<bool, Error> {
    match readback_spec(fuel, k, u) {
        Err(e) => Err(e),
        Ok(ut) => match readback_spec(fuel, k, v) {
            Err(e) => Err(e),
            Ok(vt) => Ok(ut == vt),
        },
    }
}

} // verus!
