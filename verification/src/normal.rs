//! Normal forms: what readback produces, and why evaluating a normal form
//! and reading the value back gives the normal form again.

use crate::error::Error;
use crate::fuel::{lemma_neutral_fuel, lemma_readback_fuel};
use crate::names::fresh_name;
use crate::semantics::{
    enter_spec, eval_spec, nat_elim_spec, neutral_spec, neutral_var, readback_spec, vapp_spec,
    veq_spec,
};
use crate::term::TermView;
use crate::value::{empty_env, ClosureView, EnvView, NeutralView, ValueView};
use vstd::prelude::*;

verus! {

/// The number of nodes of a term.
pub open spec fn size(t: TermView) -> nat
    decreases t,
{
    match t {
        TermView::Var(_) => 1,
        TermView::Abs(_, b) => 1 + size(*b),
        TermView::App(g, a) => 1 + size(*g) + size(*a),
        TermView::Pi(_, a, b) => 1 + size(*a) + size(*b),
        TermView::Type(_) => 1,
        TermView::Nat => 1,
        TermView::Zero => 1,
        TermView::Succ(n) => 1 + size(*n),
        TermView::Ind(n, a, z, s) => 1 + size(*n) + size(*a) + size(*z) + size(*s),
        TermView::Id(a, t, u) => 1 + size(*a) + size(*t) + size(*u),
        TermView::Refl(t) => 1 + size(*t),
        TermView::J(a, r, t, u, p) => 1 + size(*a) + size(*r) + size(*t) + size(*u) + size(*p),
    }
}

/// Whether `t` is a normal form under `k` binders: it holds no application
/// of a function and no elimination of a constructor, and each of its
/// binders is named by the depth at which it stands.
pub open spec fn normal_form(k: nat, t: TermView) -> bool
    decreases t, 1nat,
{
    match t {
        TermView::Abs(x, b) => x == fresh_name(k) && normal_form(k + 1, *b),
        TermView::Pi(x, a, b) => x == fresh_name(k) && normal_form(k, *a) && normal_form(
            k + 1,
            *b,
        ),
        TermView::Type(_) => true,
        TermView::Nat => true,
        TermView::Zero => true,
        TermView::Succ(n) => normal_form(k, *n),
        TermView::Id(a, t, u) => normal_form(k, *a) && normal_form(k, *t) && normal_form(k, *u),
        TermView::Refl(t) => normal_form(k, *t),
        _ => stuck_form(k, t),
    }
}

/// Whether `t` is a stuck normal form under `k` binders: a variable under
/// eliminations that wait for it, whose other parts are normal forms.
pub open spec fn stuck_form(k: nat, t: TermView) -> bool
    decreases t, 0nat,
{
    match t {
        TermView::Var(_) => true,
        TermView::App(n, v) => stuck_form(k, *n) && normal_form(k, *v),
        TermView::Ind(n, a, z, s) => stuck_form(k, *n) && normal_form(k, *a) && normal_form(k, *z)
            && normal_form(k, *s),
        TermView::J(a, r, t, u, p) => normal_form(k, *a) && normal_form(k, *r) && normal_form(
            k,
            *t,
        ) && normal_form(k, *u) && stuck_form(k, *p),
        _ => false,
    }
}

/// Whether every name that `env` binds stands for itself: it is bound to
/// the free variable of its own name.
pub open spec fn binds_names_to_themselves(env: EnvView) -> bool {
    forall|x: Seq<char>| #[trigger] env.contains_key(x) ==> env[x] == neutral_var(x)
}

/// What readback returns is a normal form.
pub proof fn lemma_readback_is_normal(fuel: nat, k: nat, v: ValueView)
    ensures
        readback_spec(fuel, k, v) matches Ok(t) ==> normal_form(k, t),
    decreases fuel, 0nat,
{
    if fuel > 0 {
        let f = (fuel - 1) as nat;
        let y = neutral_var(fresh_name(k));
        match v {
            ValueView::Closure(c) => {
                if let Ok(r) = enter_spec(f, c, y) {
                    lemma_readback_is_normal(f, k + 1, r);
                }
            },
            ValueView::Pi(a, c) => {
                lemma_readback_is_normal(f, k, *a);
                if let Ok(r) = enter_spec(f, c, y) {
                    lemma_readback_is_normal(f, k + 1, r);
                }
            },
            ValueView::Universe(n) => {},
            ValueView::Nat => {},
            ValueView::Zero => {},
            ValueView::Succ(n) => {
                lemma_readback_is_normal(f, k, *n);
            },
            ValueView::Id(a, t, u) => {
                lemma_readback_is_normal(f, k, *a);
                lemma_readback_is_normal(f, k, *t);
                lemma_readback_is_normal(f, k, *u);
            },
            ValueView::Refl(t) => {
                lemma_readback_is_normal(f, k, *t);
            },
            ValueView::Neutral(n) => {
                lemma_neutral_is_stuck(f, k, *n);
                if let Ok(t) = neutral_spec(f, k, *n) {
                    assert(normal_form(k, t));
                }
            },
        }
    }
}

/// What the readback of a stuck computation returns is a stuck normal form.
pub proof fn lemma_neutral_is_stuck(fuel: nat, k: nat, n: NeutralView)
    ensures
        neutral_spec(fuel, k, n) matches Ok(t) ==> stuck_form(k, t),
    decreases fuel, 1nat, n,
{
    match n {
        NeutralView::Var(x) => {},
        NeutralView::App(m, v) => {
            lemma_neutral_is_stuck(fuel, k, *m);
            lemma_readback_is_normal(fuel, k, *v);
        },
        NeutralView::NatElim(m, a, z, s) => {
            lemma_neutral_is_stuck(fuel, k, *m);
            lemma_readback_is_normal(fuel, k, *a);
            lemma_readback_is_normal(fuel, k, *z);
            lemma_readback_is_normal(fuel, k, *s);
        },
        NeutralView::IdElim(a, r, t, u, m) => {
            lemma_readback_is_normal(fuel, k, *a);
            lemma_readback_is_normal(fuel, k, *r);
            lemma_readback_is_normal(fuel, k, *t);
            lemma_readback_is_normal(fuel, k, *u);
            lemma_neutral_is_stuck(fuel, k, *m);
        },
    }
}

/// A normal form is stable: evaluated in an environment whose names stand
/// for themselves, and read back at the depth at which it is normal, it
/// comes back unchanged. Twice its size is bound enough for both.
pub proof fn lemma_normal_form_stable(fuel: nat, k: nat, env: EnvView, t: TermView)
    requires
        binds_names_to_themselves(env),
        normal_form(k, t),
        fuel >= 2 * size(t),
    ensures
        eval_spec(fuel, env, t) is Ok,
        readback_spec(fuel, k, eval_spec(fuel, env, t)->Ok_0) == Ok::<TermView, Error>(t),
    decreases t, 1nat,
{
    let f = (fuel - 1) as nat;
    let y = neutral_var(fresh_name(k));
    match t {
        TermView::Abs(x, b) => {
            let c = ClosureView { env: env, param: x, body: *b };
            let inner = env.insert(x, y);
            assert(binds_names_to_themselves(inner));
            lemma_normal_form_stable(f, k + 1, inner, *b);
            assert(eval_spec(fuel, env, t) == Ok::<ValueView, Error>(ValueView::Closure(c)));
            assert(enter_spec(f, c, y) == eval_spec(f, inner, *b));
        },
        TermView::Pi(x, a, b) => {
            let c = ClosureView { env: env, param: x, body: *b };
            let inner = env.insert(x, y);
            assert(binds_names_to_themselves(inner));
            lemma_normal_form_stable(f, k, env, *a);
            lemma_normal_form_stable(f, k + 1, inner, *b);
            let av = eval_spec(f, env, *a)->Ok_0;
            assert(eval_spec(fuel, env, t) == Ok::<ValueView, Error>(
                ValueView::Pi(Box::new(av), c),
            ));
            assert(enter_spec(f, c, y) == eval_spec(f, inner, *b));
        },
        TermView::Type(_) => {},
        TermView::Nat => {},
        TermView::Zero => {},
        TermView::Succ(n) => {
            lemma_normal_form_stable(f, k, env, *n);
        },
        TermView::Id(a, t1, u) => {
            lemma_normal_form_stable(f, k, env, *a);
            lemma_normal_form_stable(f, k, env, *t1);
            lemma_normal_form_stable(f, k, env, *u);
        },
        TermView::Refl(t1) => {
            lemma_normal_form_stable(f, k, env, *t1);
        },
        _ => {
            lemma_stuck_form_stable(fuel, k, env, t);
        },
    }
}

/// A stuck normal form is stable: it evaluates to a stuck computation whose
/// readback is the form itself.
pub proof fn lemma_stuck_form_stable(fuel: nat, k: nat, env: EnvView, t: TermView)
    requires
        binds_names_to_themselves(env),
        stuck_form(k, t),
        fuel >= 2 * size(t),
    ensures
        eval_spec(fuel, env, t) matches Ok(ValueView::Neutral(m)) && neutral_spec(
            (fuel - 1) as nat,
            k,
            *m,
        ) == Ok::<TermView, Error>(t),
    decreases t, 0nat,
{
    let f = (fuel - 1) as nat;
    let g = (fuel - 2) as nat;
    match t {
        TermView::Var(x) => {},
        TermView::App(n, v) => {
            lemma_stuck_form_stable(f, k, env, *n);
            lemma_normal_form_stable(f, k, env, *v);
            let m = eval_spec(f, env, *n)->Ok_0->Neutral_0;
            let w = eval_spec(f, env, *v)->Ok_0;
            lemma_neutral_fuel(g, f, k, *m);
            assert(vapp_spec(f, ValueView::Neutral(m), w) == Ok::<ValueView, Error>(
                ValueView::Neutral(Box::new(NeutralView::App(m, Box::new(w)))),
            ));
        },
        TermView::Ind(n, a, z, s) => {
            lemma_stuck_form_stable(f, k, env, *n);
            lemma_normal_form_stable(f, k, env, *a);
            lemma_normal_form_stable(f, k, env, *z);
            lemma_normal_form_stable(f, k, env, *s);
            let m = eval_spec(f, env, *n)->Ok_0->Neutral_0;
            let av = eval_spec(f, env, *a)->Ok_0;
            let zv = eval_spec(f, env, *z)->Ok_0;
            let sv = eval_spec(f, env, *s)->Ok_0;
            lemma_neutral_fuel(g, f, k, *m);
            assert(nat_elim_spec(f, ValueView::Neutral(m), av, zv, sv) == Ok::<ValueView, Error>(
                ValueView::Neutral(
                    Box::new(NeutralView::NatElim(m, Box::new(av), Box::new(zv), Box::new(sv))),
                ),
            ));
        },
        TermView::J(a, r, t1, u, p) => {
            lemma_stuck_form_stable(f, k, env, *p);
            lemma_normal_form_stable(f, k, env, *a);
            lemma_normal_form_stable(f, k, env, *r);
            lemma_normal_form_stable(f, k, env, *t1);
            lemma_normal_form_stable(f, k, env, *u);
            let m = eval_spec(f, env, *p)->Ok_0->Neutral_0;
            lemma_neutral_fuel(g, f, k, *m);
        },
        _ => {},
    }
}

/// Reading a value back and evaluating the normal form again gives a value
/// that is definitionally equal to the first.
///
/// This holds of every value that can be read back at all, at every depth,
/// and the bound with which the value was read back, raised by twice the
/// size of its normal form, is enough for the evaluation and the comparison.
pub proof fn lemma_readback_then_eval(fuel: nat, k: nat, v: ValueView)
    requires
        readback_spec(fuel, k, v) is Ok,
    ensures
        ({
            let t = readback_spec(fuel, k, v)->Ok_0;
            let enough = fuel + 2 * size(t);
            &&& eval_spec(enough, empty_env(), t) is Ok
            &&& veq_spec(enough, k, v, eval_spec(enough, empty_env(), t)->Ok_0) == Ok::<
                bool,
                Error,
            >(true)
        }),
{
    let t = readback_spec(fuel, k, v)->Ok_0;
    let enough = fuel + 2 * size(t);
    lemma_readback_is_normal(fuel, k, v);
    assert(binds_names_to_themselves(empty_env()));
    lemma_normal_form_stable(enough, k, empty_env(), t);
    lemma_readback_fuel(fuel, enough, k, v);
}

} // verus!
