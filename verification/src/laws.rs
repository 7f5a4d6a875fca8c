//! Laws of evaluation and of definitional equality.

use crate::error::Error;
use crate::fuel::{
    decided, lemma_check_fuel, lemma_eval_fuel, lemma_infer_fuel, lemma_readback_fuel,
};
use crate::semantics::{enter_spec, eval_spec, readback_spec, vapp_spec, veq_spec};
use crate::term::TermView;
use crate::typing::{check_spec, constant_name, ignored_name, infer_spec, varr_spec};
use crate::value::{ClosureView, EnvView, ValueView};
use vstd::prelude::*;

verus! {

/// Evaluation is a function of the environment and the term alone: two
/// evaluations that were both decided gave the same result, whatever their
/// bounds were, and so did the readbacks of their values.
pub proof fn lemma_eval_deterministic(f1: nat, f2: nat, env: EnvView, t: TermView)
    requires
        decided(eval_spec(f1, env, t)),
        decided(eval_spec(f2, env, t)),
    ensures
        eval_spec(f1, env, t) == eval_spec(f2, env, t),
{
    if f1 <= f2 {
        lemma_eval_fuel(f1, f2, env, t);
    } else {
        lemma_eval_fuel(f2, f1, env, t);
    }
}

/// Readback is a function of the depth and the value alone: two readbacks
/// that were both decided gave the same result, whatever their bounds were.
pub proof fn lemma_readback_deterministic(f1: nat, f2: nat, k: nat, v: ValueView)
    requires
        decided(readback_spec(f1, k, v)),
        decided(readback_spec(f2, k, v)),
    ensures
        readback_spec(f1, k, v) == readback_spec(f2, k, v),
{
    if f1 <= f2 {
        lemma_readback_fuel(f1, f2, k, v);
    } else {
        lemma_readback_fuel(f2, f1, k, v);
    }
}

/// Definitional equality is reflexive: a value that can be read back is
/// equal to itself, and one that cannot fails as its readback does.
pub proof fn lemma_veq_reflexive(fuel: nat, k: nat, u: ValueView)
    ensures
        veq_spec(fuel, k, u, u) == (match readback_spec(fuel, k, u) {
            Ok(_) => Ok(true),
            Err(e) => Err(e),
        }),
{
}

/// Definitional equality is symmetric: a comparison succeeds in one order
/// exactly if it succeeds in the other, and then with the same answer.
///
/// Where the readback of both sides fails, each order reports the failure
/// of the side it read back first.
pub proof fn lemma_veq_symmetric(fuel: nat, k: nat, u: ValueView, v: ValueView)
    ensures
        veq_spec(fuel, k, u, v) is Ok <==> veq_spec(fuel, k, v, u) is Ok,
        veq_spec(fuel, k, u, v) is Ok ==> veq_spec(fuel, k, u, v) == veq_spec(fuel, k, v, u),
{
}

/// The law of beta reduction: a function applied to an argument evaluates
/// as its body does in the environment that binds the parameter to the
/// value of the argument. Where the argument has no value, the application
/// fails as the argument does.
pub proof fn lemma_beta(fuel: nat, env: EnvView, x: Seq<char>, body: TermView, arg: TermView)
    ensures
        eval_spec(
            fuel + 1,
            env,
            TermView::App(Box::new(TermView::Abs(x, Box::new(body))), Box::new(arg)),
        ) == (match eval_spec(fuel, env, arg) {
            Ok(a) => eval_spec(fuel, env.insert(x, a), body),
            Err(e) => Err(e),
        }),
{
    let abs = TermView::Abs(x, Box::new(body));
    let c = ClosureView { env: env, param: x, body: body };
    if fuel == 0 {
        assert(eval_spec(fuel, env, abs) is Err);
        assert(eval_spec(fuel, env, arg) is Err);
    } else {
        assert(eval_spec(fuel, env, abs) == Ok::<ValueView, Error>(ValueView::Closure(c)));
        if let Ok(a) = eval_spec(fuel, env, arg) {
            assert(vapp_spec(fuel, ValueView::Closure(c), a) == enter_spec(fuel, c, a));
            assert(enter_spec(fuel, c, a) == eval_spec(fuel, env.insert(x, a), body));
        }
    }
}

/// The base law of the eliminator of natural numbers: eliminating zero
/// evaluates as the case for zero does, provided that the motive and the
/// step have values at all.
pub proof fn lemma_ind_zero(
    fuel: nat,
    env: EnvView,
    a: TermView,
    z: TermView,
    s: TermView,
)
    requires
        eval_spec(fuel, env, a) is Ok,
        eval_spec(fuel, env, s) is Ok,
    ensures
        eval_spec(
            fuel + 1,
            env,
            TermView::Ind(Box::new(TermView::Zero), Box::new(a), Box::new(z), Box::new(s)),
        ) == eval_spec(fuel, env, z),
{
    reveal_with_fuel(eval_spec, 2);
}

/// The step law of the eliminator of natural numbers: eliminating the
/// successor of `n` evaluates as the step does when it is applied to the
/// value of `n` and then to the result of eliminating `n`, provided that
/// `n`, the motive and both cases have values at all.
pub proof fn lemma_ind_succ(
    fuel: nat,
    env: EnvView,
    n: TermView,
    a: TermView,
    z: TermView,
    s: TermView,
)
    requires
        eval_spec(fuel, env, n) is Ok,
        eval_spec(fuel, env, a) is Ok,
        eval_spec(fuel, env, z) is Ok,
        eval_spec(fuel, env, s) is Ok,
    ensures
        eval_spec(
            fuel + 2,
            env,
            TermView::Ind(
                Box::new(TermView::Succ(Box::new(n))),
                Box::new(a),
                Box::new(z),
                Box::new(s),
            ),
        ) == (match vapp_spec(
            fuel + 1,
            eval_spec(fuel, env, s)->Ok_0,
            eval_spec(fuel, env, n)->Ok_0,
        ) {
            Err(e) => Err(e),
            Ok(step) => match eval_spec(
                fuel + 2,
                env,
                TermView::Ind(Box::new(n), Box::new(a), Box::new(z), Box::new(s)),
            ) {
                Err(e) => Err(e),
                Ok(rec) => vapp_spec(fuel + 1, step, rec),
            },
        }),
{
    reveal_with_fuel(eval_spec, 2);
    lemma_eval_fuel(fuel, fuel + 1, env, n);
    lemma_eval_fuel(fuel, fuel + 1, env, a);
    lemma_eval_fuel(fuel, fuel + 1, env, z);
    lemma_eval_fuel(fuel, fuel + 1, env, s);
}

/// The codomain of an arrow does not depend on the argument: entered with
/// any value, under any bound but zero, it gives the type it was built
/// with.
pub proof fn lemma_varr_constant(fuel: nat, a: ValueView, b: ValueView, v: ValueView)
    requires
        fuel > 0,
    ensures
        varr_spec(a, b) matches ValueView::Pi(dom, cod) && *dom == a && enter_spec(fuel, cod, v)
            == Ok::<ValueView, Error>(b),
{
    let cod = varr_spec(a, b)->Pi_1;
    let inner = cod.env.insert(cod.param, v);
    assert(constant_name() != ignored_name()) by {
        assert(constant_name()[0] == 'r');
        assert(ignored_name()[0] == '_');
    }
    assert(inner.contains_key(constant_name()));
    assert(inner[constant_name()] == b);
    assert(enter_spec(fuel, cod, v) == eval_spec(fuel, inner, cod.body));
}

/// The type of a term is a function of the depth, the context, the
/// environment and the term alone: two inferences that were both decided
/// gave the same result, whatever their bounds were.
pub proof fn lemma_infer_deterministic(
    f1: nat,
    f2: nat,
    k: nat,
    ctx: EnvView,
    env: EnvView,
    t: TermView,
)
    requires
        decided(infer_spec(f1, k, ctx, env, t)),
        decided(infer_spec(f2, k, ctx, env, t)),
    ensures
        infer_spec(f1, k, ctx, env, t) == infer_spec(f2, k, ctx, env, t),
{
    if f1 <= f2 {
        lemma_infer_fuel(f1, f2, k, ctx, env, t);
    } else {
        lemma_infer_fuel(f2, f1, k, ctx, env, t);
    }
}

/// Whether a term has a type is a function of the depth, the context, the
/// environment, the term and the type alone: two checks that were both
/// decided gave the same verdict, whatever their bounds were.
pub proof fn lemma_check_deterministic(
    f1: nat,
    f2: nat,
    k: nat,
    ctx: EnvView,
    env: EnvView,
    t: TermView,
    ty: ValueView,
)
    requires
        decided(check_spec(f1, k, ctx, env, t, ty)),
        decided(check_spec(f2, k, ctx, env, t, ty)),
    ensures
        check_spec(f1, k, ctx, env, t, ty) == check_spec(f2, k, ctx, env, t, ty),
{
    if f1 <= f2 {
        lemma_check_fuel(f1, f2, k, ctx, env, t, ty);
    } else {
        lemma_check_fuel(f2, f1, k, ctx, env, t, ty);
    }
}

} // verus!
