//! The typing judgment, as mathematical functions on the models of terms
//! and values.
//!
//! The judgment is bidirectional. [`infer_spec`] finds the type of a term
//! whose shape determines it; [`check_spec`] holds a term against a type that
//! is already known. Both thread the binder depth `k`, the typing context
//! `ctx` from names to types, and the environment `env` from names to values.

use crate::error::Error;
use crate::names::fresh_name;
use crate::semantics::{enter_spec, eval_spec, neutral_var, veq_spec};
use crate::term::TermView;
use crate::value::{empty_env, ClosureView, EnvView, ValueView};
use vstd::prelude::*;

verus! {

/// The name that the codomain of an arrow binds and never uses.
pub open spec fn ignored_name() -> Seq<char> {
    seq!['_']
}

/// The name under which the codomain of an arrow holds its result.
pub open spec fn constant_name() -> Seq<char> {
    seq!['r']
}

/// The function type from `a` to `b` whose codomain does not depend on the
/// argument: its closure returns `b` whatever it is entered with.
pub open spec fn varr_spec(a: ValueView, b: ValueView) -> ValueView {
    ValueView::Pi(
        Box::new(a),
        ClosureView {
            env: empty_env().insert(constant_name(), b),
            param: ignored_name(),
            body: TermView::Var(constant_name()),
        },
    )
}

/// The larger of two universe levels.
pub open spec fn level_max(i: nat, j: nat) -> nat {
    if i >= j {
        i
    } else {
        j
    }
}

/// The type of the term `t`.
///
/// Only variables, applications, function types, universes, the type and
/// the constructors of natural numbers and their eliminator have an
/// inference rule. Every other term fails with [`Error::ShapeMismatch`]: it
/// can only be checked against a type that is known.
pub open spec fn infer_spec(fuel: nat, k: nat, ctx: EnvView, env: EnvView, t: TermView) -> Result<
    ValueView,
    Error,
>
    decreases fuel, 0nat,
{
    if fuel == 0 {
        Err(Error::FuelExhausted)
    } else {
        let f = (fuel - 1) as nat;
        match t {
            TermView::Var(x) => if ctx.contains_key(x) {
                Ok(ctx[x])
            } else {
                Err(Error::UnboundVariable)
            },
            TermView::App(g, a) => infer_app_spec(f, k, ctx, env, *g, *a),
            TermView::Pi(x, a, b) => infer_pi_spec(f, k, ctx, env, x, *a, *b),
            TermView::Type(i) => if i < usize::MAX {
                Ok(ValueView::Universe(i + 1))
            } else {
                Err(Error::LevelOverflow)
            },
            TermView::Nat => Ok(ValueView::Universe(0)),
            TermView::Zero => Ok(ValueView::Nat),
            TermView::Succ(n) => match check_spec(f, k, ctx, env, *n, ValueView::Nat) {
                Err(e) => Err(e),
                Ok(_) => Ok(ValueView::Nat),
            },
            TermView::Ind(n, a, z, s) => infer_ind_spec(f, k, ctx, env, *n, *a, *z, *s),
            _ => Err(Error::ShapeMismatch),
        }
    }
}

/// The type of the application of `g` to `a`: the type of `g` must be a
/// function type, `a` must have its domain, and the result is its codomain
/// entered with the value of `a`.
pub open spec fn infer_app_spec(
    fuel: nat,
    k: nat,
    ctx: EnvView,
    env: EnvView,
    g: TermView,
    a: TermView,
) -> Result<ValueView, Error>
    decreases fuel, 2nat,
{
    match infer_spec(fuel, k, ctx, env, g) {
        Err(e) => Err(e),
        Ok(ValueView::Pi(dom, cod)) => match check_spec(fuel, k, ctx, env, a, *dom) {
            Err(e) => Err(e),
            Ok(_) => match eval_spec(fuel, env, a) {
                Err(e) => Err(e),
                Ok(av) => enter_spec(fuel, cod, av),
            },
        },
        Ok(_) => Err(Error::ShapeMismatch),
    }
}

/// The type of the function type that binds `x` in `b` over the domain `a`:
/// the universe at the larger of the levels of `a` and of `b`, where `b` is
/// taken in the context that gives `x` the value of `a` as its type.
pub open spec fn infer_pi_spec(
    fuel: nat,
    k: nat,
    ctx: EnvView,
    env: EnvView,
    x: Seq<char>,
    a: TermView,
    b: TermView,
) -> Result<ValueView, Error>
    decreases fuel, 2nat,
{
    match universe_spec(fuel, k, ctx, env, a) {
        Err(e) => Err(e),
        Ok(i) => match eval_spec(fuel, env, a) {
            Err(e) => Err(e),
            Ok(av) => match universe_spec(fuel, k, ctx.insert(x, av), env, b) {
                Err(e) => Err(e),
                Ok(j) => Ok(ValueView::Universe(level_max(i, j))),
            },
        },
    }
}

/// The type of the elimination of the number `n` with the motive `a`, the
/// case `z` for zero and the step `s`.
///
/// `n` must be a number. The motive must evaluate to a function type; one
/// whose domain is not the type of natural numbers fails with
/// [`Error::TypeMismatch`], any other value with [`Error::ShapeMismatch`].
/// `z` must have the type that the motive gives to zero, and `s` the arrow
/// from the type that the motive gives to `n` to the one it gives to the
/// successor of `n`. The result is the type that the motive gives to `n`.
pub open spec fn infer_ind_spec(
    fuel: nat,
    k: nat,
    ctx: EnvView,
    env: EnvView,
    n: TermView,
    a: TermView,
    z: TermView,
    s: TermView,
) -> Result<ValueView, Error>
    decreases fuel, 2nat,
{
    match check_spec(fuel, k, ctx, env, n, ValueView::Nat) {
        Err(e) => Err(e),
        Ok(_) => match eval_spec(fuel, env, a) {
            Err(e) => Err(e),
            Ok(ValueView::Pi(dom, motive)) => if *dom == ValueView::Nat {
                infer_ind_cases_spec(fuel, k, ctx, env, n, z, s, motive)
            } else {
                Err(Error::TypeMismatch)
            },
            Ok(_) => Err(Error::ShapeMismatch),
        },
    }
}

/// The type of the elimination of the number `n` once its motive is known
/// to be a family of types over the natural numbers: the two cases are
/// checked against the motive, and the result is the motive at `n`.
pub open spec fn infer_ind_cases_spec(
    fuel: nat,
    k: nat,
    ctx: EnvView,
    env: EnvView,
    n: TermView,
    z: TermView,
    s: TermView,
    motive: ClosureView,
) -> Result<ValueView, Error>
    decreases fuel, 1nat,
{
    match eval_spec(fuel, env, n) {
        Err(e) => Err(e),
        Ok(nv) => match enter_spec(fuel, motive, ValueView::Zero) {
            Err(e) => Err(e),
            Ok(at_zero) => match check_spec(fuel, k, ctx, env, z, at_zero) {
                Err(e) => Err(e),
                Ok(_) => match enter_spec(fuel, motive, nv) {
                    Err(e) => Err(e),
                    Ok(at_n) => match enter_spec(fuel, motive, ValueView::Succ(Box::new(nv))) {
                        Err(e) => Err(e),
                        Ok(at_succ) => match check_spec(
                            fuel,
                            k,
                            ctx,
                            env,
                            s,
                            varr_spec(at_n, at_succ),
                        ) {
                            Err(e) => Err(e),
                            Ok(_) => Ok(at_n),
                        },
                    },
                },
            },
        },
    }
}

/// Whether the term `t` has the type `ty`.
///
/// A function is checked against a function type by checking its body one
/// binder deeper, with the bound name standing for a fresh variable. A proof
/// by reflexivity is checked against an identity type by comparing its
/// subject with both sides. Any other term has its type inferred, and that
/// type must be definitionally equal to `ty`.
pub open spec fn check_spec(
    fuel: nat,
    k: nat,
    ctx: EnvView,
    env: EnvView,
    t: TermView,
    ty: ValueView,
) -> Result<(), Error>
    decreases fuel, 0nat,
{
    if fuel == 0 {
        Err(Error::FuelExhausted)
    } else {
        let f = (fuel - 1) as nat;
        match (t, ty) {
            (TermView::Abs(x, body), ValueView::Pi(dom, cod)) => check_abs_spec(
                f,
                k,
                ctx,
                env,
                x,
                *body,
                *dom,
                cod,
            ),
            (TermView::Refl(s), ValueView::Id(_, u, v)) => check_refl_spec(f, k, env, *s, *u, *v),
            _ => check_inferred_spec(f, k, ctx, env, t, ty),
        }
    }
}

/// Whether the function that binds `x` in `body` has the function type
/// from `dom` to `cod`: `body` is checked one binder deeper against `cod`
/// entered with a fresh variable, with `x` of type `dom` standing for that
/// variable.
pub open spec fn check_abs_spec(
    fuel: nat,
    k: nat,
    ctx: EnvView,
    env: EnvView,
    x: Seq<char>,
    body: TermView,
    dom: ValueView,
    cod: ClosureView,
) -> Result<(), Error>
    decreases fuel, 2nat,
{
    let y = neutral_var(fresh_name(k));
    match enter_spec(fuel, cod, y) {
        Err(e) => Err(e),
        Ok(ty_body) => check_spec(fuel, k + 1, ctx.insert(x, dom), env.insert(x, y), body, ty_body),
    }
}

/// Whether reflexivity at `s` proves that `u` equals `v`: the value of `s`
/// must be definitionally equal to both. The type that the identity type
/// names for its two sides plays no part in this rule.
pub open spec fn check_refl_spec(
    fuel: nat,
    k: nat,
    env: EnvView,
    s: TermView,
    u: ValueView,
    v: ValueView,
) -> Result<(), Error> {
    match eval_spec(fuel, env, s) {
        Err(e) => Err(e),
        Ok(sv) => match veq_spec(fuel, k, sv, u) {
            Err(e) => Err(e),
            Ok(left) => if !left {
                Err(Error::TypeMismatch)
            } else {
                match veq_spec(fuel, k, sv, v) {
                    Err(e) => Err(e),
                    Ok(right) => if !right {
                        Err(Error::TypeMismatch)
                    } else {
                        Ok(())
                    },
                }
            },
        },
    }
}

/// Whether the type inferred for `t` is definitionally equal to `ty`.
pub open spec fn check_inferred_spec(
    fuel: nat,
    k: nat,
    ctx: EnvView,
    env: EnvView,
    t: TermView,
    ty: ValueView,
) -> Result<(), Error>
    decreases fuel, 2nat,
{
    match infer_spec(fuel, k, ctx, env, t) {
        Err(e) => Err(e),
        Ok(inferred) => match veq_spec(fuel, k, inferred, ty) {
            Err(e) => Err(e),
            Ok(same) => if same {
                Ok(())
            } else {
                Err(Error::TypeMismatch)
            },
        },
    }
}

/// The level of the universe that the term `t` lives in. A term whose type
/// is no universe fails with [`Error::TypeMismatch`].
pub open spec fn universe_spec(fuel: nat, k: nat, ctx: EnvView, env: EnvView, t: TermView) -> Result<
    nat,
    Error,
>
    decreases fuel, 1nat,
{
    match infer_spec(fuel, k, ctx, env, t) {
        Err(e) => Err(e),
        Ok(ValueView::Universe(i)) => Ok(i),
        Ok(_) => Err(Error::TypeMismatch),
    }
}

} // verus!
