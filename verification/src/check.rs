//! The bidirectional type checker.

use crate::env::{share, Env};
use crate::error::Error;
use crate::eval::{enter, eval, value_outcome};
use crate::readback::{fresh_var, veq};
use crate::term::Term;
use crate::typing::{
    check_abs_spec, check_inferred_spec, check_refl_spec, check_spec, constant_name, ignored_name,
    infer_app_spec, infer_ind_cases_spec, infer_ind_spec, infer_pi_spec, infer_spec, universe_spec, varr_spec,
};
use crate::value::{Closure, Value, ValueView};
use std::rc::Rc;
use vstd::prelude::*;
use vstd::string::*;

verus! {

/// The model of what a procedure that computes a universe level returned.
pub open spec fn level_outcome(r: Result<usize, Error>) -> Result<nat, Error> {
    match r {
        Ok(i) => Ok(i as nat),
        Err(e) => Err(e),
    }
}

/// The function type from `a` to `b`, whose codomain ignores the argument.
pub fn varr(a: Rc<Value>, b: Rc<Value>) -> (r: Rc<Value>)
    ensures
        r@ == varr_spec(a@, b@),
{
    proof {
        reveal_strlit("_");
        reveal_strlit("r");
    }
    let held = String::from_str("r");
    let ignored = String::from_str("_");
    assert(held@ =~= constant_name());
    assert(ignored@ =~= ignored_name());
    let env = Env::new().insert(held.clone(), b);
    let body = Rc::new(Term::Var(held));
    let cod = Closure { env: env, param: ignored, body: body };
    Rc::new(Value::Pi(a, cod))
}

/// Infers the type of the term `t` under `k` binders, in the typing context
/// `ctx` and the environment `env`, going at most `fuel` steps deep.
pub fn infer(fuel: usize, k: usize, ctx: &Env, env: &Env, t: &Term) -> (r: Result<Rc<Value>, Error>)
    requires
        k + fuel <= usize::MAX,
    ensures
        value_outcome(r) == infer_spec(fuel as nat, k as nat, ctx@, env@, t@),
    decreases fuel, 0nat,
{
    if fuel == 0 {
        return Err(Error::FuelExhausted);
    }
    let f: usize = fuel - 1;
    match t {
        Term::Var(x) => match ctx.get(x) {
            Some(ty) => Ok(ty),
            None => Err(Error::UnboundVariable),
        },
        Term::App(g, a) => infer_app(f, k, ctx, env, g, a),
        Term::Pi(x, a, b) => infer_pi(f, k, ctx, env, x, a, b),
        Term::Type(i) => {
            if *i < usize::MAX {
                Ok(Rc::new(Value::Universe(*i + 1)))
            } else {
                Err(Error::LevelOverflow)
            }
        },
        Term::Nat => Ok(Rc::new(Value::Universe(0))),
        Term::Zero => Ok(Rc::new(Value::Nat)),
        Term::Succ(n) => {
            check(f, k, ctx, env, n, &Value::Nat)?;
            Ok(Rc::new(Value::Nat))
        },
        Term::Ind(n, a, z, s) => infer_ind(f, k, ctx, env, n, a, z, s),
        _ => Err(Error::ShapeMismatch),
    }
}

/// The inference rule for the application of `g` to `a`.
fn infer_app(fuel: usize, k: usize, ctx: &Env, env: &Env, g: &Term, a: &Term) -> (r: Result<
    Rc<Value>,
    Error,
>)
    requires
        k + fuel <= usize::MAX,
    ensures
        value_outcome(r) == infer_app_spec(fuel as nat, k as nat, ctx@, env@, g@, a@),
    decreases fuel, 2nat,
{
    let gt = infer(fuel, k, ctx, env, g)?;
    match &*gt {
        Value::Pi(dom, cod) => {
            check(fuel, k, ctx, env, a, dom)?;
            let av = eval(fuel, env, a)?;
            enter(fuel, cod, av)
        },
        _ => Err(Error::ShapeMismatch),
    }
}

/// The inference rule for the function type that binds `x` in `b` over the
/// domain `a`.
fn infer_pi(fuel: usize, k: usize, ctx: &Env, env: &Env, x: &String, a: &Term, b: &Term) -> (r:
    Result<Rc<Value>, Error>)
    requires
        k + fuel <= usize::MAX,
    ensures
        value_outcome(r) == infer_pi_spec(fuel as nat, k as nat, ctx@, env@, x@, a@, b@),
    decreases fuel, 2nat,
{
    let i = universe(fuel, k, ctx, env, a)?;
    let av = eval(fuel, env, a)?;
    let inner = ctx.insert(x.clone(), av);
    let j = universe(fuel, k, &inner, env, b)?;
    let level: usize = if i >= j {
        i
    } else {
        j
    };
    Ok(Rc::new(Value::Universe(level)))
}

/// The inference rule for the elimination of the number `n` with the motive
/// `a`, the case `z` for zero and the step `s`.
fn infer_ind(
    fuel: usize,
    k: usize,
    ctx: &Env,
    env: &Env,
    n: &Term,
    a: &Term,
    z: &Term,
    s: &Term,
) -> (r: Result<Rc<Value>, Error>)
    requires
        k + fuel <= usize::MAX,
    ensures
        value_outcome(r) == infer_ind_spec(fuel as nat, k as nat, ctx@, env@, n@, a@, z@, s@),
    decreases fuel, 2nat,
{
    check(fuel, k, ctx, env, n, &Value::Nat)?;
    let av = eval(fuel, env, a)?;
    match &*av {
        Value::Pi(dom, motive) => {
            if is_nat(dom) {
                infer_ind_cases(fuel, k, ctx, env, n, z, s, motive)
            } else {
                Err(Error::TypeMismatch)
            }
        },
        _ => Err(Error::ShapeMismatch),
    }
}

/// Whether `v` is the type of natural numbers itself.
fn is_nat(v: &Value) -> (r: bool)
    ensures
        r == (v@ == ValueView::Nat),
{
    match v {
        Value::Nat => true,
        _ => false,
    }
}

/// The inference rule for the elimination of the number `n`, once the
/// motive is known to be a family of types over the natural numbers.
fn infer_ind_cases(
    fuel: usize,
    k: usize,
    ctx: &Env,
    env: &Env,
    n: &Term,
    z: &Term,
    s: &Term,
    motive: &Closure,
) -> (r: Result<Rc<Value>, Error>)
    requires
        k + fuel <= usize::MAX,
    ensures
        value_outcome(r) == infer_ind_cases_spec(
            fuel as nat,
            k as nat,
            ctx@,
            env@,
            n@,
            z@,
            s@,
            motive@,
        ),
    decreases fuel, 1nat,
{
    let nv = eval(fuel, env, n)?;
    let at_zero = enter(fuel, motive, Rc::new(Value::Zero))?;
    check(fuel, k, ctx, env, z, &at_zero)?;
    let at_n = enter(fuel, motive, share(&nv))?;
    let at_succ = enter(fuel, motive, Rc::new(Value::Succ(nv)))?;
    let step = varr(share(&at_n), at_succ);
    check(fuel, k, ctx, env, s, &step)?;
    Ok(at_n)
}

/// Checks the term `t` against the type `ty` under `k` binders, in the
/// typing context `ctx` and the environment `env`, going at most `fuel`
/// steps deep.
pub fn check(fuel: usize, k: usize, ctx: &Env, env: &Env, t: &Term, ty: &Value) -> (r: Result<
    (),
    Error,
>)
    requires
        k + fuel <= usize::MAX,
    ensures
        r == check_spec(fuel as nat, k as nat, ctx@, env@, t@, ty@),
    decreases fuel, 0nat,
{
    if fuel == 0 {
        return Err(Error::FuelExhausted);
    }
    let f: usize = fuel - 1;
    match t {
        Term::Abs(x, body) => match ty {
            Value::Pi(dom, cod) => check_abs(f, k, ctx, env, x, body, dom, cod),
            _ => check_inferred(f, k, ctx, env, t, ty),
        },
        Term::Refl(s) => match ty {
            Value::Id(_, u, v) => check_refl(f, k, env, s, u, v),
            _ => check_inferred(f, k, ctx, env, t, ty),
        },
        _ => check_inferred(f, k, ctx, env, t, ty),
    }
}

/// The checking rule for a function against a function type.
fn check_abs(
    fuel: usize,
    k: usize,
    ctx: &Env,
    env: &Env,
    x: &String,
    body: &Term,
    dom: &Rc<Value>,
    cod: &Closure,
) -> (r: Result<(), Error>)
    requires
        k + 1 + fuel <= usize::MAX,
    ensures
        r == check_abs_spec(fuel as nat, k as nat, ctx@, env@, x@, body@, dom@, cod@),
    decreases fuel, 2nat,
{
    let y = fresh_var(k);
    let ty_body = enter(fuel, cod, share(&y))?;
    let inner_ctx = ctx.insert(x.clone(), share(dom));
    let inner_env = env.insert(x.clone(), y);
    check(fuel, k + 1, &inner_ctx, &inner_env, body, &ty_body)
}

/// The checking rule for a proof by reflexivity against an identity type.
fn check_refl(fuel: usize, k: usize, env: &Env, s: &Term, u: &Value, v: &Value) -> (r: Result<
    (),
    Error,
>)
    requires
        k + fuel <= usize::MAX,
    ensures
        r == check_refl_spec(fuel as nat, k as nat, env@, s@, u@, v@),
{
    let sv = eval(fuel, env, s)?;
    if !veq(fuel, k, &sv, u)? {
        return Err(Error::TypeMismatch);
    }
    if !veq(fuel, k, &sv, v)? {
        return Err(Error::TypeMismatch);
    }
    Ok(())
}

/// The checking rule of last resort: the type of `t` is inferred and must
/// be definitionally equal to `ty`.
fn check_inferred(fuel: usize, k: usize, ctx: &Env, env: &Env, t: &Term, ty: &Value) -> (r: Result<
    (),
    Error,
>)
    requires
        k + fuel <= usize::MAX,
    ensures
        r == check_inferred_spec(fuel as nat, k as nat, ctx@, env@, t@, ty@),
    decreases fuel, 2nat,
{
    let inferred = infer(fuel, k, ctx, env, t)?;
    if veq(fuel, k, &inferred, ty)? {
        Ok(())
    } else {
        Err(Error::TypeMismatch)
    }
}

/// Infers the type of the term `t` and returns its level, where that type
/// is a universe.
pub fn universe(fuel: usize, k: usize, ctx: &Env, env: &Env, t: &Term) -> (r: Result<usize, Error>)
    requires
        k + fuel <= usize::MAX,
    ensures
        level_outcome(r) == universe_spec(fuel as nat, k as nat, ctx@, env@, t@),
    decreases fuel, 1nat,
{
    let ty = infer(fuel, k, ctx, env, t)?;
    match &*ty {
        Value::Universe(i) => Ok(*i),
        _ => Err(Error::TypeMismatch),
    }
}

} // verus!
