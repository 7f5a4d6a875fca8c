//! The only ways in which evaluation and readback fail.
//!
//! Evaluation never meets an unbound variable, since a variable without a
//! binding stands for itself, and it compares no types. What is left are
//! the mismatches of shape, the misuse of the identity eliminator, and the
//! bound on the recursion depth.

use crate::error::Error;
use crate::names::fresh_name;
use crate::semantics::{
    enter_spec, eval_spec, nat_elim_spec, neutral_spec, neutral_var, readback_spec, vapp_spec,
    veq_spec,
};
use crate::term::TermView;
use crate::value::{ClosureView, EnvView, NeutralView, ValueView};
use vstd::prelude::*;

verus! {

/// Whether `r` is a success or one of the failures of evaluation.
pub open spec fn fails_only_by_evaluation<T>(r: Result<T, Error>) -> bool {
    match r {
        Ok(_) => true,
        Err(e) => e == Error::ShapeMismatch || e == Error::StuckProof || e
            == Error::FuelExhausted,
    }
}

/// Evaluation fails only by a mismatch of shape, by a misused identity
/// eliminator or by the bound.
pub proof fn lemma_eval_failures(fuel: nat, env: EnvView, t: TermView)
    ensures
        fails_only_by_evaluation(eval_spec(fuel, env, t)),
    decreases fuel, 0nat,
{
    if fuel > 0 {
        let f = (fuel - 1) as nat;
        match t {
            TermView::App(g, a) => {
                lemma_eval_failures(f, env, *g);
                lemma_eval_failures(f, env, *a);
                if let Ok(gv) = eval_spec(f, env, *g) {
                    if let Ok(av) = eval_spec(f, env, *a) {
                        lemma_vapp_failures(f, gv, av);
                    }
                }
            },
            TermView::Pi(x, a, b) => {
                lemma_eval_failures(f, env, *a);
            },
            TermView::Succ(n) => {
                lemma_eval_failures(f, env, *n);
            },
            TermView::Ind(n, a, z, s) => {
                lemma_eval_failures(f, env, *n);
                lemma_eval_failures(f, env, *a);
                lemma_eval_failures(f, env, *z);
                lemma_eval_failures(f, env, *s);
                if let Ok(nv) = eval_spec(f, env, *n) {
                    if let Ok(av) = eval_spec(f, env, *a) {
                        if let Ok(zv) = eval_spec(f, env, *z) {
                            if let Ok(sv) = eval_spec(f, env, *s) {
                                lemma_nat_elim_failures(f, nv, av, zv, sv);
                            }
                        }
                    }
                }
            },
            TermView::Id(a, t, u) => {
                lemma_eval_failures(f, env, *a);
                lemma_eval_failures(f, env, *t);
                lemma_eval_failures(f, env, *u);
            },
            TermView::Refl(t) => {
                lemma_eval_failures(f, env, *t);
            },
            TermView::J(a, r, t, u, p) => {
                lemma_eval_failures(f, env, *p);
                lemma_eval_failures(f, env, *a);
                lemma_eval_failures(f, env, *r);
                lemma_eval_failures(f, env, *t);
                lemma_eval_failures(f, env, *u);
            },
            _ => {},
        }
    }
}

/// Entering a closure fails only as evaluation does.
pub proof fn lemma_enter_failures(fuel: nat, c: ClosureView, v: ValueView)
    ensures
        fails_only_by_evaluation(enter_spec(fuel, c, v)),
    decreases fuel, 1nat,
{
    lemma_eval_failures(fuel, c.env.insert(c.param, v), c.body);
}

/// Application fails only as evaluation does.
pub proof fn lemma_vapp_failures(fuel: nat, u: ValueView, v: ValueView)
    ensures
        fails_only_by_evaluation(vapp_spec(fuel, u, v)),
    decreases fuel, 2nat,
{
    if let ValueView::Closure(c) = u {
        lemma_enter_failures(fuel, c, v);
    }
}

/// The elimination of a number fails only as evaluation does.
pub proof fn lemma_nat_elim_failures(
    fuel: nat,
    k: ValueView,
    a: ValueView,
    z: ValueView,
    s: ValueView,
)
    ensures
        fails_only_by_evaluation(nat_elim_spec(fuel, k, a, z, s)),
    decreases fuel, 3nat, k,
{
    if let ValueView::Succ(l) = k {
        lemma_vapp_failures(fuel, s, *l);
        lemma_nat_elim_failures(fuel, *l, a, z, s);
        if let Ok(step) = vapp_spec(fuel, s, *l) {
            if let Ok(rec) = nat_elim_spec(fuel, *l, a, z, s) {
                lemma_vapp_failures(fuel, step, rec);
            }
        }
    }
}

/// Readback fails only as evaluation does.
pub proof fn lemma_readback_failures(fuel: nat, k: nat, v: ValueView)
    ensures
        fails_only_by_evaluation(readback_spec(fuel, k, v)),
    decreases fuel, 0nat,
{
    if fuel > 0 {
        let f = (fuel - 1) as nat;
        let y = neutral_var(fresh_name(k));
        match v {
            ValueView::Closure(c) => {
                lemma_enter_failures(f, c, y);
                if let Ok(r) = enter_spec(f, c, y) {
                    lemma_readback_failures(f, k + 1, r);
                }
            },
            ValueView::Pi(a, c) => {
                lemma_readback_failures(f, k, *a);
                lemma_enter_failures(f, c, y);
                if let Ok(r) = enter_spec(f, c, y) {
                    lemma_readback_failures(f, k + 1, r);
                }
            },
            ValueView::Succ(n) => {
                lemma_readback_failures(f, k, *n);
            },
            ValueView::Id(a, t, u) => {
                lemma_readback_failures(f, k, *a);
                lemma_readback_failures(f, k, *t);
                lemma_readback_failures(f, k, *u);
            },
            ValueView::Refl(t) => {
                lemma_readback_failures(f, k, *t);
            },
            ValueView::Neutral(n) => {
                lemma_neutral_failures(f, k, *n);
            },
            _ => {},
        }
    }
}

/// The readback of a stuck computation fails only as evaluation does.
pub proof fn lemma_neutral_failures(fuel: nat, k: nat, n: NeutralView)
    ensures
        fails_only_by_evaluation(neutral_spec(fuel, k, n)),
    decreases fuel, 1nat, n,
{
    match n {
        NeutralView::Var(x) => {},
        NeutralView::App(m, v) => {
            lemma_neutral_failures(fuel, k, *m);
            lemma_readback_failures(fuel, k, *v);
        },
        NeutralView::NatElim(m, a, z, s) => {
            lemma_neutral_failures(fuel, k, *m);
            lemma_readback_failures(fuel, k, *a);
            lemma_readback_failures(fuel, k, *z);
            lemma_readback_failures(fuel, k, *s);
        },
        NeutralView::IdElim(a, r, t, u, m) => {
            lemma_readback_failures(fuel, k, *a);
            lemma_readback_failures(fuel, k, *r);
            lemma_readback_failures(fuel, k, *t);
            lemma_readback_failures(fuel, k, *u);
            lemma_neutral_failures(fuel, k, *m);
        },
    }
}

/// Definitional equality fails only as evaluation does.
pub proof fn lemma_veq_failures(fuel: nat, k: nat, u: ValueView, v: ValueView)
    ensures
        fails_only_by_evaluation(veq_spec(fuel, k, u, v)),
{
    lemma_readback_failures(fuel, k, u);
    lemma_readback_failures(fuel, k, v);
}

} // verus!
