//! The bound on the recursion depth does not change what is computed.
//!
//! A result is *decided* when it is anything but [`Error::FuelExhausted`].
//! Each lemma of this module says of one function of the model that a
//! decided result stays the same under every larger bound. Two decided
//! results of one computation are therefore equal, whatever bounds they
//! were computed with.

use crate::error::Error;
use crate::names::fresh_name;
use crate::semantics::{
    enter_spec, eval_spec, nat_elim_spec, neutral_spec, neutral_var, readback_spec, vapp_spec,
    veq_spec,
};
use crate::term::TermView;
use crate::typing::{
    check_abs_spec, check_inferred_spec, check_refl_spec, check_spec, infer_app_spec,
    infer_ind_cases_spec, infer_ind_spec, infer_pi_spec, infer_spec, universe_spec, varr_spec,
};
use crate::value::{ClosureView, EnvView, NeutralView, ValueView};
use vstd::prelude::*;

verus! {

/// Whether a result came about without running into the bound on the
/// recursion depth.
pub open spec fn decided<T>(r: Result<T, Error>) -> bool {
    match r {
        Err(Error::FuelExhausted) => false,
        _ => true,
    }
}

/// A decided evaluation is the same under every larger bound.
pub proof fn lemma_eval_fuel(f1: nat, f2: nat, env: EnvView, t: TermView)
    requires
        f1 <= f2,
    ensures
        decided(eval_spec(f1, env, t)) ==> eval_spec(f2, env, t) == eval_spec(f1, env, t),
    decreases f1, 0nat,
{
    if f1 > 0 {
        let g1 = (f1 - 1) as nat;
        let g2 = (f2 - 1) as nat;
        match t {
            TermView::Var(x) => {},
            TermView::Abs(x, b) => {},
            TermView::App(g, a) => {
                lemma_eval_fuel(g1, g2, env, *g);
                lemma_eval_fuel(g1, g2, env, *a);
                if let Ok(gv) = eval_spec(g1, env, *g) {
                    if let Ok(av) = eval_spec(g1, env, *a) {
                        lemma_vapp_fuel(g1, g2, gv, av);
                    }
                }
            },
            TermView::Pi(x, a, b) => {
                lemma_eval_fuel(g1, g2, env, *a);
            },
            TermView::Type(n) => {},
            TermView::Nat => {},
            TermView::Zero => {},
            TermView::Succ(n) => {
                lemma_eval_fuel(g1, g2, env, *n);
            },
            TermView::Ind(n, a, z, s) => {
                lemma_eval_fuel(g1, g2, env, *n);
                lemma_eval_fuel(g1, g2, env, *a);
                lemma_eval_fuel(g1, g2, env, *z);
                lemma_eval_fuel(g1, g2, env, *s);
                if let Ok(nv) = eval_spec(g1, env, *n) {
                    if let Ok(av) = eval_spec(g1, env, *a) {
                        if let Ok(zv) = eval_spec(g1, env, *z) {
                            if let Ok(sv) = eval_spec(g1, env, *s) {
                                lemma_nat_elim_fuel(g1, g2, nv, av, zv, sv);
                            }
                        }
                    }
                }
            },
            TermView::Id(a, t, u) => {
                lemma_eval_fuel(g1, g2, env, *a);
                lemma_eval_fuel(g1, g2, env, *t);
                lemma_eval_fuel(g1, g2, env, *u);
            },
            TermView::Refl(t) => {
                lemma_eval_fuel(g1, g2, env, *t);
            },
            TermView::J(a, r, t, u, p) => {
                lemma_eval_fuel(g1, g2, env, *p);
                lemma_eval_fuel(g1, g2, env, *a);
                lemma_eval_fuel(g1, g2, env, *r);
                lemma_eval_fuel(g1, g2, env, *t);
                lemma_eval_fuel(g1, g2, env, *u);
            },
        }
    }
}

/// A decided entry into a closure is the same under every larger bound.
pub proof fn lemma_enter_fuel(f1: nat, f2: nat, c: ClosureView, v: ValueView)
    requires
        f1 <= f2,
    ensures
        decided(enter_spec(f1, c, v)) ==> enter_spec(f2, c, v) == enter_spec(f1, c, v),
    decreases f1, 1nat,
{
    lemma_eval_fuel(f1, f2, c.env.insert(c.param, v), c.body);
}

/// A decided application is the same under every larger bound.
pub proof fn lemma_vapp_fuel(f1: nat, f2: nat, u: ValueView, v: ValueView)
    requires
        f1 <= f2,
    ensures
        decided(vapp_spec(f1, u, v)) ==> vapp_spec(f2, u, v) == vapp_spec(f1, u, v),
    decreases f1, 2nat,
{
    match u {
        ValueView::Closure(c) => {
            lemma_enter_fuel(f1, f2, c, v);
        },
        _ => {},
    }
}

/// A decided elimination of a number is the same under every larger bound.
pub proof fn lemma_nat_elim_fuel(
    f1: nat,
    f2: nat,
    k: ValueView,
    a: ValueView,
    z: ValueView,
    s: ValueView,
)
    requires
        f1 <= f2,
    ensures
        decided(nat_elim_spec(f1, k, a, z, s)) ==> nat_elim_spec(f2, k, a, z, s) == nat_elim_spec(
            f1,
            k,
            a,
            z,
            s,
        ),
    decreases f1, 3nat, k,
{
    match k {
        ValueView::Succ(l) => {
            lemma_vapp_fuel(f1, f2, s, *l);
            lemma_nat_elim_fuel(f1, f2, *l, a, z, s);
            if let Ok(step) = vapp_spec(f1, s, *l) {
                if let Ok(rec) = nat_elim_spec(f1, *l, a, z, s) {
                    lemma_vapp_fuel(f1, f2, step, rec);
                }
            }
        },
        _ => {},
    }
}

/// A decided readback is the same under every larger bound.
pub proof fn lemma_readback_fuel(f1: nat, f2: nat, k: nat, v: ValueView)
    requires
        f1 <= f2,
    ensures
        decided(readback_spec(f1, k, v)) ==> readback_spec(f2, k, v) == readback_spec(f1, k, v),
    decreases f1, 0nat,
{
    if f1 > 0 {
        let g1 = (f1 - 1) as nat;
        let g2 = (f2 - 1) as nat;
        let y = neutral_var(fresh_name(k));
        match v {
            ValueView::Closure(c) => {
                lemma_enter_fuel(g1, g2, c, y);
                if let Ok(r) = enter_spec(g1, c, y) {
                    lemma_readback_fuel(g1, g2, k + 1, r);
                }
            },
            ValueView::Pi(a, c) => {
                lemma_readback_fuel(g1, g2, k, *a);
                lemma_enter_fuel(g1, g2, c, y);
                if let Ok(r) = enter_spec(g1, c, y) {
                    lemma_readback_fuel(g1, g2, k + 1, r);
                }
            },
            ValueView::Universe(n) => {},
            ValueView::Nat => {},
            ValueView::Zero => {},
            ValueView::Succ(n) => {
                lemma_readback_fuel(g1, g2, k, *n);
            },
            ValueView::Id(a, t, u) => {
                lemma_readback_fuel(g1, g2, k, *a);
                lemma_readback_fuel(g1, g2, k, *t);
                lemma_readback_fuel(g1, g2, k, *u);
            },
            ValueView::Refl(t) => {
                lemma_readback_fuel(g1, g2, k, *t);
            },
            ValueView::Neutral(n) => {
                lemma_neutral_fuel(g1, g2, k, *n);
            },
        }
    }
}

/// A decided readback of a stuck computation is the same under every
/// larger bound.
pub proof fn lemma_neutral_fuel(f1: nat, f2: nat, k: nat, n: NeutralView)
    requires
        f1 <= f2,
    ensures
        decided(neutral_spec(f1, k, n)) ==> neutral_spec(f2, k, n) == neutral_spec(f1, k, n),
    decreases f1, 1nat, n,
{
    match n {
        NeutralView::Var(x) => {},
        NeutralView::App(m, v) => {
            lemma_neutral_fuel(f1, f2, k, *m);
            lemma_readback_fuel(f1, f2, k, *v);
        },
        NeutralView::NatElim(m, a, z, s) => {
            lemma_neutral_fuel(f1, f2, k, *m);
            lemma_readback_fuel(f1, f2, k, *a);
            lemma_readback_fuel(f1, f2, k, *z);
            lemma_readback_fuel(f1, f2, k, *s);
        },
        NeutralView::IdElim(a, r, t, u, m) => {
            lemma_readback_fuel(f1, f2, k, *a);
            lemma_readback_fuel(f1, f2, k, *r);
            lemma_readback_fuel(f1, f2, k, *t);
            lemma_readback_fuel(f1, f2, k, *u);
            lemma_neutral_fuel(f1, f2, k, *m);
        },
    }
}

/// A decided comparison is the same under every larger bound.
pub proof fn lemma_veq_fuel(f1: nat, f2: nat, k: nat, u: ValueView, v: ValueView)
    requires
        f1 <= f2,
    ensures
        decided(veq_spec(f1, k, u, v)) ==> veq_spec(f2, k, u, v) == veq_spec(f1, k, u, v),
{
    lemma_readback_fuel(f1, f2, k, u);
    lemma_readback_fuel(f1, f2, k, v);
}

/// A decided inference is the same under every larger bound.
pub proof fn lemma_infer_fuel(f1: nat, f2: nat, k: nat, ctx: EnvView, env: EnvView, t: TermView)
    requires
        f1 <= f2,
    ensures
        decided(infer_spec(f1, k, ctx, env, t)) ==> infer_spec(f2, k, ctx, env, t) == infer_spec(
            f1,
            k,
            ctx,
            env,
            t,
        ),
    decreases f1, 0nat,
{
    if f1 > 0 {
        let g1 = (f1 - 1) as nat;
        let g2 = (f2 - 1) as nat;
        match t {
            TermView::App(g, a) => {
                lemma_infer_app_fuel(g1, g2, k, ctx, env, *g, *a);
            },
            TermView::Pi(x, a, b) => {
                lemma_infer_pi_fuel(g1, g2, k, ctx, env, x, *a, *b);
            },
            TermView::Succ(n) => {
                lemma_check_fuel(g1, g2, k, ctx, env, *n, ValueView::Nat);
            },
            TermView::Ind(n, a, z, s) => {
                lemma_infer_ind_fuel(g1, g2, k, ctx, env, *n, *a, *z, *s);
            },
            _ => {},
        }
    }
}

/// A decided inference for an application is the same under every larger
/// bound.
pub proof fn lemma_infer_app_fuel(
    f1: nat,
    f2: nat,
    k: nat,
    ctx: EnvView,
    env: EnvView,
    g: TermView,
    a: TermView,
)
    requires
        f1 <= f2,
    ensures
        decided(infer_app_spec(f1, k, ctx, env, g, a)) ==> infer_app_spec(f2, k, ctx, env, g, a)
            == infer_app_spec(f1, k, ctx, env, g, a),
    decreases f1, 2nat,
{
    lemma_infer_fuel(f1, f2, k, ctx, env, g);
    if let Ok(ValueView::Pi(dom, cod)) = infer_spec(f1, k, ctx, env, g) {
        lemma_check_fuel(f1, f2, k, ctx, env, a, *dom);
        lemma_eval_fuel(f1, f2, env, a);
        if let Ok(av) = eval_spec(f1, env, a) {
            lemma_enter_fuel(f1, f2, cod, av);
        }
    }
}

/// A decided inference for a function type is the same under every larger
/// bound.
pub proof fn lemma_infer_pi_fuel(
    f1: nat,
    f2: nat,
    k: nat,
    ctx: EnvView,
    env: EnvView,
    x: Seq<char>,
    a: TermView,
    b: TermView,
)
    requires
        f1 <= f2,
    ensures
        decided(infer_pi_spec(f1, k, ctx, env, x, a, b)) ==> infer_pi_spec(
            f2,
            k,
            ctx,
            env,
            x,
            a,
            b,
        ) == infer_pi_spec(f1, k, ctx, env, x, a, b),
    decreases f1, 2nat,
{
    lemma_universe_fuel(f1, f2, k, ctx, env, a);
    lemma_eval_fuel(f1, f2, env, a);
    if let Ok(av) = eval_spec(f1, env, a) {
        lemma_universe_fuel(f1, f2, k, ctx.insert(x, av), env, b);
    }
}

/// A decided inference for an elimination of a number is the same under
/// every larger bound.
pub proof fn lemma_infer_ind_fuel(
    f1: nat,
    f2: nat,
    k: nat,
    ctx: EnvView,
    env: EnvView,
    n: TermView,
    a: TermView,
    z: TermView,
    s: TermView,
)
    requires
        f1 <= f2,
    ensures
        decided(infer_ind_spec(f1, k, ctx, env, n, a, z, s)) ==> infer_ind_spec(
            f2,
            k,
            ctx,
            env,
            n,
            a,
            z,
            s,
        ) == infer_ind_spec(f1, k, ctx, env, n, a, z, s),
    decreases f1, 2nat,
{
    lemma_check_fuel(f1, f2, k, ctx, env, n, ValueView::Nat);
    lemma_eval_fuel(f1, f2, env, a);
    if let Ok(ValueView::Pi(dom, motive)) = eval_spec(f1, env, a) {
        lemma_infer_ind_cases_fuel(f1, f2, k, ctx, env, n, z, s, motive);
    }
}

/// A decided inference for an elimination whose motive is known is the
/// same under every larger bound.
pub proof fn lemma_infer_ind_cases_fuel(
    f1: nat,
    f2: nat,
    k: nat,
    ctx: EnvView,
    env: EnvView,
    n: TermView,
    z: TermView,
    s: TermView,
    motive: ClosureView,
)
    requires
        f1 <= f2,
    ensures
        decided(infer_ind_cases_spec(f1, k, ctx, env, n, z, s, motive)) ==> infer_ind_cases_spec(
            f2,
            k,
            ctx,
            env,
            n,
            z,
            s,
            motive,
        ) == infer_ind_cases_spec(f1, k, ctx, env, n, z, s, motive),
    decreases f1, 1nat,
{
    lemma_eval_fuel(f1, f2, env, n);
    if let Ok(nv) = eval_spec(f1, env, n) {
        lemma_enter_fuel(f1, f2, motive, ValueView::Zero);
        if let Ok(at_zero) = enter_spec(f1, motive, ValueView::Zero) {
            lemma_check_fuel(f1, f2, k, ctx, env, z, at_zero);
            lemma_enter_fuel(f1, f2, motive, nv);
            if let Ok(at_n) = enter_spec(f1, motive, nv) {
                lemma_enter_fuel(f1, f2, motive, ValueView::Succ(Box::new(nv)));
                if let Ok(at_succ) = enter_spec(f1, motive, ValueView::Succ(Box::new(nv))) {
                    lemma_check_fuel(f1, f2, k, ctx, env, s, varr_spec(at_n, at_succ));
                }
            }
        }
    }
}

/// A decided check is the same under every larger bound.
pub proof fn lemma_check_fuel(
    f1: nat,
    f2: nat,
    k: nat,
    ctx: EnvView,
    env: EnvView,
    t: TermView,
    ty: ValueView,
)
    requires
        f1 <= f2,
    ensures
        decided(check_spec(f1, k, ctx, env, t, ty)) ==> check_spec(f2, k, ctx, env, t, ty)
            == check_spec(f1, k, ctx, env, t, ty),
    decreases f1, 0nat,
{
    if f1 > 0 {
        let g1 = (f1 - 1) as nat;
        let g2 = (f2 - 1) as nat;
        match (t, ty) {
            (TermView::Abs(x, body), ValueView::Pi(dom, cod)) => {
                lemma_check_abs_fuel(g1, g2, k, ctx, env, x, *body, *dom, cod);
            },
            (TermView::Refl(s), ValueView::Id(_, u, v)) => {
                lemma_check_refl_fuel(g1, g2, k, env, *s, *u, *v);
            },
            _ => {
                lemma_check_inferred_fuel(g1, g2, k, ctx, env, t, ty);
            },
        }
    }
}

/// A decided check of a function is the same under every larger bound.
pub proof fn lemma_check_abs_fuel(
    f1: nat,
    f2: nat,
    k: nat,
    ctx: EnvView,
    env: EnvView,
    x: Seq<char>,
    body: TermView,
    dom: ValueView,
    cod: ClosureView,
)
    requires
        f1 <= f2,
    ensures
        decided(check_abs_spec(f1, k, ctx, env, x, body, dom, cod)) ==> check_abs_spec(
            f2,
            k,
            ctx,
            env,
            x,
            body,
            dom,
            cod,
        ) == check_abs_spec(f1, k, ctx, env, x, body, dom, cod),
    decreases f1, 2nat,
{
    let y = neutral_var(fresh_name(k));
    lemma_enter_fuel(f1, f2, cod, y);
    if let Ok(ty_body) = enter_spec(f1, cod, y) {
        lemma_check_fuel(f1, f2, k + 1, ctx.insert(x, dom), env.insert(x, y), body, ty_body);
    }
}

/// A decided check of a proof by reflexivity is the same under every
/// larger bound.
pub proof fn lemma_check_refl_fuel(
    f1: nat,
    f2: nat,
    k: nat,
    env: EnvView,
    s: TermView,
    u: ValueView,
    v: ValueView,
)
    requires
        f1 <= f2,
    ensures
        decided(check_refl_spec(f1, k, env, s, u, v)) ==> check_refl_spec(f2, k, env, s, u, v)
            == check_refl_spec(f1, k, env, s, u, v),
{
    lemma_eval_fuel(f1, f2, env, s);
    if let Ok(sv) = eval_spec(f1, env, s) {
        lemma_veq_fuel(f1, f2, k, sv, u);
        lemma_veq_fuel(f1, f2, k, sv, v);
    }
}

/// A decided check by inference is the same under every larger bound.
pub proof fn lemma_check_inferred_fuel(
    f1: nat,
    f2: nat,
    k: nat,
    ctx: EnvView,
    env: EnvView,
    t: TermView,
    ty: ValueView,
)
    requires
        f1 <= f2,
    ensures
        decided(check_inferred_spec(f1, k, ctx, env, t, ty)) ==> check_inferred_spec(
            f2,
            k,
            ctx,
            env,
            t,
            ty,
        ) == check_inferred_spec(f1, k, ctx, env, t, ty),
    decreases f1, 2nat,
{
    lemma_infer_fuel(f1, f2, k, ctx, env, t);
    if let Ok(inferred) = infer_spec(f1, k, ctx, env, t) {
        lemma_veq_fuel(f1, f2, k, inferred, ty);
    }
}

/// A decided universe level is the same under every larger bound.
pub proof fn lemma_universe_fuel(
    f1: nat,
    f2: nat,
    k: nat,
    ctx: EnvView,
    env: EnvView,
    t: TermView,
)
    requires
        f1 <= f2,
    ensures
        decided(universe_spec(f1, k, ctx, env, t)) ==> universe_spec(f2, k, ctx, env, t)
            == universe_spec(f1, k, ctx, env, t),
    decreases f1, 1nat,
{
    lemma_infer_fuel(f1, f2, k, ctx, env, t);
}

} // verus!
