use nbe_core::check::{check, infer, universe, varr};
use nbe_core::env::Env;
use nbe_core::error::Error;
use nbe_core::eval::{enter, eval, nat_elim, vapp};
use nbe_core::readback::{neutral, readback, veq};
use nbe_core::term::Term;
use nbe_core::value::{Closure, Neutral, Value};
use std::rc::Rc;

const FUEL: usize = 200;

fn mk_var(x: &str) -> Rc<Term> {
    Rc::new(Term::Var(x.to_string()))
}

fn mk_abs(x: &str, b: Rc<Term>) -> Rc<Term> {
    Rc::new(Term::Abs(x.to_string(), b))
}

fn mk_app(f: Rc<Term>, a: Rc<Term>) -> Rc<Term> {
    Rc::new(Term::App(f, a))
}

fn mk_pi(x: &str, a: Rc<Term>, b: Rc<Term>) -> Rc<Term> {
    Rc::new(Term::Pi(x.to_string(), a, b))
}

fn mk_nat() -> Rc<Term> {
    Rc::new(Term::Nat)
}

fn mk_zero() -> Rc<Term> {
    Rc::new(Term::Zero)
}

fn mk_succ(n: Rc<Term>) -> Rc<Term> {
    Rc::new(Term::Succ(n))
}

fn mk_ind(n: Rc<Term>, a: Rc<Term>, z: Rc<Term>, s: Rc<Term>) -> Rc<Term> {
    Rc::new(Term::Ind(n, a, z, s))
}

fn numeral(n: usize) -> Rc<Term> {
    let mut t = mk_zero();
    for _ in 0..n {
        t = mk_succ(t);
    }
    t
}

fn assert_same(a: &Term, b: &Term) {
    assert!(a.same(b), "{:?} differs from {:?}", a, b);
}

fn normal(v: &Value) -> Rc<Term> {
    readback(FUEL, 0, v).unwrap()
}

fn value_of(t: &Term) -> Rc<Value> {
    eval(FUEL, &Env::new(), t).unwrap()
}

#[test]
fn test_vapp() {
    let f = Value::Closure(Closure {
        env: Env::new(),
        param: "x".to_string(),
        body: mk_var("x"),
    });
    let v = Value::Nat;
    let result = vapp(FUEL, &f, Rc::new(v)).unwrap();
    match result.as_ref() {
        Value::Nat => (),
        _ => panic!("vapp"),
    }
}

#[test]
fn test_eval() {
    let env = Env::new().insert("x".to_string(), Rc::new(Value::Nat));

    let x = mk_var("x");
    let result = eval(FUEL, &env, &x).unwrap();
    match result.as_ref() {
        Value::Nat => (),
        _ => panic!("eval"),
    }

    let y = mk_var("y");
    let result = eval(FUEL, &env, &y).unwrap();
    match result.as_ref() {
        Value::Neutral(n) => match n.as_ref() {
            Neutral::Var(x) => assert_eq!(x, "y"),
            _ => panic!("eval"),
        },
        _ => panic!("eval"),
    }
}

#[test]
fn test_veq() {
    let u = Rc::new(Value::Nat);
    let v = Rc::new(Value::Nat);
    assert!(veq(FUEL, 0, &u, &v).unwrap());

    let u = Rc::new(Value::Succ(Rc::new(Value::Zero)));
    let v = eval(FUEL, &Env::new(), &mk_succ(mk_zero())).unwrap();
    assert!(veq(FUEL, 0, &u, &v).unwrap());
}

#[test]
fn vapp_of_stuck_function_stays_stuck() {
    let f = Value::Neutral(Rc::new(Neutral::Var("f".to_string())));
    let r = vapp(FUEL, &f, Rc::new(Value::Zero)).unwrap();
    assert_same(&*normal(&r), &*mk_app(mk_var("f"), mk_zero()));
}

#[test]
fn vapp_of_non_function_is_shape_mismatch() {
    assert_eq!(vapp(FUEL, &Value::Zero, Rc::new(Value::Zero)).err(), Some(Error::ShapeMismatch));
    assert_eq!(vapp(FUEL, &Value::Nat, Rc::new(Value::Zero)).err(), Some(Error::ShapeMismatch));
}

#[test]
fn enter_binds_the_parameter() {
    let c = Closure { env: Env::new(), param: "x".to_string(), body: mk_succ(mk_var("x")) };
    let r = enter(FUEL, &c, Rc::new(Value::Zero)).unwrap();
    assert_same(&*normal(&r), &*numeral(1));
}

#[test]
fn enter_shadows_an_outer_binding() {
    let env = Env::new().insert("x".to_string(), Rc::new(Value::Nat));
    let c = Closure { env: env, param: "x".to_string(), body: mk_var("x") };
    let r = enter(FUEL, &c, Rc::new(Value::Zero)).unwrap();
    assert_same(&*normal(&r), &*mk_zero());
}

#[test]
fn env_insert_leaves_the_old_environment_untouched() {
    let e0 = Env::new();
    let e1 = e0.insert("x".to_string(), Rc::new(Value::Zero));
    let e2 = e1.insert("x".to_string(), Rc::new(Value::Nat));
    assert!(e0.get(&"x".to_string()).is_none());
    assert!(matches!(*e1.get(&"x".to_string()).unwrap(), Value::Zero));
    assert!(matches!(*e2.get(&"x".to_string()).unwrap(), Value::Nat));
    assert!(e2.get(&"y".to_string()).is_none());
    let e3 = e2.clone();
    assert!(matches!(*e3.get(&"x".to_string()).unwrap(), Value::Nat));
}

#[test]
fn eval_without_fuel_fails() {
    assert_eq!(eval(0, &Env::new(), &mk_zero()).err(), Some(Error::FuelExhausted));
    assert_eq!(eval(1, &Env::new(), &mk_succ(mk_zero())).err(), Some(Error::FuelExhausted));
    assert!(eval(2, &Env::new(), &mk_succ(mk_zero())).is_ok());
}

#[test]
fn eval_of_diverging_term_runs_out_of_fuel() {
    let delta = mk_abs("x", mk_app(mk_var("x"), mk_var("x")));
    let omega = mk_app(delta.clone(), delta);
    assert_eq!(eval(FUEL, &Env::new(), &omega).err(), Some(Error::FuelExhausted));
}

#[test]
fn eval_is_deterministic() {
    let t = mk_app(mk_abs("x", mk_succ(mk_var("x"))), numeral(2));
    let a = value_of(&t);
    let b = value_of(&t);
    assert_same(&*normal(&a), &*normal(&b));
    assert_same(&*normal(&a), &*numeral(3));
}

#[test]
fn eval_beta_reduction() {
    let env = Env::new().insert("y".to_string(), Rc::new(Value::Zero));
    let body = mk_succ(mk_succ(mk_var("x")));
    let arg = mk_succ(mk_var("y"));
    let lhs = eval(FUEL, &env, &mk_app(mk_abs("x", body.clone()), arg.clone())).unwrap();
    let argv = eval(FUEL, &env, &arg).unwrap();
    let rhs = eval(FUEL, &env.insert("x".to_string(), argv), &body).unwrap();
    assert_same(&*normal(&lhs), &*normal(&rhs));
    assert_same(&*normal(&lhs), &*numeral(3));
}

#[test]
fn eval_application_of_non_function_is_shape_mismatch() {
    assert_eq!(eval(FUEL, &Env::new(), &mk_app(mk_zero(), mk_zero())).err(), Some(Error::ShapeMismatch));
}

#[test]
fn eval_pi_keeps_codomain_as_closure() {
    let v = value_of(&mk_pi("x", mk_nat(), mk_var("x")));
    match v.as_ref() {
        Value::Pi(dom, cod) => {
            assert!(matches!(**dom, Value::Nat));
            assert_eq!(cod.param, "x");
            assert_same(&*cod.body, &*mk_var("x"));
        },
        _ => panic!("pi"),
    }
}

#[test]
fn eval_universe_and_identity() {
    assert!(matches!(*value_of(&Term::Type(3)), Value::Universe(3)));
    let t = Term::Id(mk_nat(), mk_zero(), mk_succ(mk_zero()));
    assert_same(&*normal(&value_of(&t)), &t);
    let r = Term::Refl(mk_succ(mk_zero()));
    assert_same(&*normal(&value_of(&r)), &r);
}

fn plus_two() -> Rc<Term> {
    // The step ignores the predecessor and adds one to the result so far.
    mk_abs("k", mk_abs("acc", mk_succ(mk_var("acc"))))
}

#[test]
fn eval_ind_base_case() {
    let motive = mk_abs("n", mk_nat());
    let t = mk_ind(mk_zero(), motive, numeral(2), plus_two());
    assert_same(&*normal(&value_of(&t)), &*numeral(2));
}

#[test]
fn eval_ind_step_case() {
    let motive = mk_abs("n", mk_nat());
    let t = mk_ind(numeral(3), motive.clone(), numeral(2), plus_two());
    assert_same(&*normal(&value_of(&t)), &*numeral(5));

    // The step law on concrete values.
    let env = Env::new();
    let s = eval(FUEL, &env, &plus_two()).unwrap();
    let n = eval(FUEL, &env, &numeral(2)).unwrap();
    let rec = eval(FUEL, &env, &mk_ind(numeral(2), motive, numeral(2), plus_two())).unwrap();
    let step = vapp(FUEL, &s, n).unwrap();
    let rhs = vapp(FUEL, &step, rec).unwrap();
    assert_same(&*normal(&rhs), &*numeral(5));
}

#[test]
fn eval_ind_step_receives_predecessor() {
    // The step returns the predecessor: eliminating 3 gives 2.
    let step = mk_abs("k", mk_abs("acc", mk_var("k")));
    let t = mk_ind(numeral(3), mk_abs("n", mk_nat()), mk_zero(), step);
    assert_same(&*normal(&value_of(&t)), &*numeral(2));
}

#[test]
fn eval_ind_on_stuck_number_is_stuck() {
    let t = mk_ind(mk_var("n"), mk_abs("m", mk_nat()), mk_zero(), plus_two());
    let v = value_of(&t);
    assert!(matches!(*v, Value::Neutral(_)));
    let expected = mk_ind(
        mk_var("n"),
        mk_abs("@0", mk_nat()),
        mk_zero(),
        mk_abs("@0", mk_abs("@1", mk_succ(mk_var("@1")))),
    );
    assert_same(&*normal(&v), &*expected);
}

#[test]
fn eval_ind_on_non_number_is_shape_mismatch() {
    let t = mk_ind(mk_nat(), mk_abs("m", mk_nat()), mk_zero(), plus_two());
    assert_eq!(eval(FUEL, &Env::new(), &t).err(), Some(Error::ShapeMismatch));
}

#[test]
fn nat_elim_on_values() {
    let s = value_of(&plus_two());
    let a = value_of(&mk_abs("n", mk_nat()));
    let z = Rc::new(Value::Zero);
    let k = value_of(&numeral(4));
    let r = nat_elim(FUEL, &k, &a, &z, &s).unwrap();
    assert_same(&*normal(&r), &*numeral(4));
    let bad = Rc::new(Value::Universe(0));
    assert_eq!(nat_elim(FUEL, &bad, &a, &z, &s).err(), Some(Error::ShapeMismatch));
}

fn mk_j(a: Rc<Term>, r: Rc<Term>, t: Rc<Term>, u: Rc<Term>, p: Rc<Term>) -> Rc<Term> {
    Rc::new(Term::J(a, r, t, u, p))
}

#[test]
fn eval_j_on_stuck_proof_is_stuck() {
    let t = mk_j(mk_var("m"), mk_var("c"), mk_zero(), mk_zero(), mk_var("p"));
    let v = value_of(&t);
    assert!(matches!(*v, Value::Neutral(_)));
    assert_same(&*normal(&v), &*t);
}

#[test]
fn eval_j_on_other_proof_is_stuck_proof_error() {
    let t = mk_j(mk_var("m"), mk_var("c"), mk_zero(), mk_zero(), mk_zero());
    assert_eq!(eval(FUEL, &Env::new(), &t).err(), Some(Error::StuckProof));
    let t = mk_j(mk_var("m"), mk_var("c"), mk_zero(), mk_zero(), Rc::new(Term::Refl(mk_zero())));
    assert_eq!(eval(FUEL, &Env::new(), &t).err(), Some(Error::StuckProof));
}

#[test]
fn readback_names_binders_by_depth() {
    let t = mk_abs("x", mk_abs("y", mk_app(mk_var("x"), mk_var("y"))));
    let expected = mk_abs("@0", mk_abs("@1", mk_app(mk_var("@0"), mk_var("@1"))));
    assert_same(&*normal(&value_of(&t)), &*expected);
    let at_depth = readback(FUEL, 10, &value_of(&t)).unwrap();
    let expected = mk_abs("@10", mk_abs("@11", mk_app(mk_var("@10"), mk_var("@11"))));
    assert_same(&*at_depth, &*expected);
}

#[test]
fn readback_of_pi() {
    let t = mk_pi("x", mk_nat(), Rc::new(Term::Id(mk_nat(), mk_var("x"), mk_var("x"))));
    let expected = mk_pi("@0", mk_nat(), Rc::new(Term::Id(mk_nat(), mk_var("@0"), mk_var("@0"))));
    assert_same(&*normal(&value_of(&t)), &*expected);
}

#[test]
fn readback_normalizes_under_binders() {
    let t = mk_abs("x", mk_app(mk_abs("y", mk_succ(mk_var("y"))), mk_var("x")));
    let expected = mk_abs("@0", mk_succ(mk_var("@0")));
    assert_same(&*normal(&value_of(&t)), &*expected);
}

#[test]
fn readback_then_eval_gives_an_equal_value() {
    let t = mk_abs("f", mk_abs("x", mk_app(mk_var("f"), mk_app(mk_abs("y", mk_var("y")), mk_var("x")))));
    let v = value_of(&t);
    let again = value_of(&normal(&v));
    assert_eq!(veq(FUEL, 0, &v, &again), Ok(true));
}

#[test]
fn readback_without_fuel_fails() {
    assert_eq!(readback(0, 0, &Value::Nat).err(), Some(Error::FuelExhausted));
}

#[test]
fn neutral_rebuilds_the_stuck_term() {
    let n = Neutral::App(
        Rc::new(Neutral::Var("f".to_string())),
        Rc::new(Value::Succ(Rc::new(Value::Zero))),
    );
    assert_same(&*neutral(FUEL, 0, &n).unwrap(), &*mk_app(mk_var("f"), numeral(1)));
}

#[test]
fn veq_is_reflexive_and_symmetric() {
    let u = value_of(&mk_abs("x", mk_var("x")));
    let v = value_of(&mk_abs("y", mk_var("y")));
    let w = value_of(&mk_abs("x", mk_zero()));
    assert_eq!(veq(FUEL, 0, &u, &u), Ok(true));
    assert_eq!(veq(FUEL, 0, &u, &v), Ok(true));
    assert_eq!(veq(FUEL, 0, &v, &u), Ok(true));
    assert_eq!(veq(FUEL, 0, &u, &w), Ok(false));
    assert_eq!(veq(FUEL, 0, &w, &u), Ok(false));
}

#[test]
fn veq_compares_up_to_reduction() {
    let u = value_of(&mk_abs("x", mk_app(mk_abs("y", mk_var("y")), mk_var("x"))));
    let v = value_of(&mk_abs("z", mk_var("z")));
    assert_eq!(veq(FUEL, 0, &u, &v), Ok(true));
}

#[test]
fn term_same_is_structural() {
    assert!(mk_abs("x", mk_var("x")).same(&mk_abs("x", mk_var("x"))));
    assert!(!mk_abs("x", mk_var("x")).same(&mk_abs("y", mk_var("y"))));
    assert!(!numeral(2).same(&numeral(3)));
    assert!(Term::Type(1).same(&Term::Type(1)));
    assert!(!Term::Type(1).same(&Term::Type(2)));
}

fn top_check(t: &Term, ty: &Term) -> Result<(), Error> {
    let ty = value_of(ty);
    check(FUEL, 0, &Env::new(), &Env::new(), t, &ty)
}

fn top_infer(t: &Term) -> Result<Rc<Value>, Error> {
    infer(FUEL, 0, &Env::new(), &Env::new(), t)
}

#[test]
fn check_identity_function_on_naturals() {
    assert_eq!(top_check(&mk_abs("x", mk_var("x")), &mk_pi("x", mk_nat(), mk_nat())), Ok(()));
}

#[test]
fn infer_application_of_successor_function() {
    // A function has no inference rule, so the function is a variable of
    // function type bound to the successor function.
    let f = value_of(&mk_abs("x", mk_succ(mk_var("x"))));
    let ctx = Env::new().insert("f".to_string(), value_of(&mk_pi("x", mk_nat(), mk_nat())));
    let env = Env::new().insert("f".to_string(), f);
    let t = mk_app(mk_var("f"), mk_zero());
    let ty = infer(FUEL, 0, &ctx, &env, &t).unwrap();
    assert!(matches!(*ty, Value::Nat));
    let v = eval(FUEL, &env, &t).unwrap();
    assert_eq!(veq(FUEL, 0, &v, &value_of(&mk_succ(mk_zero()))), Ok(true));
}

#[test]
fn infer_application_of_abstraction_has_no_rule() {
    let t = mk_app(mk_abs("x", mk_succ(mk_var("x"))), mk_zero());
    assert_eq!(top_infer(&t).err(), Some(Error::ShapeMismatch));
    let v = value_of(&t);
    assert_eq!(veq(FUEL, 0, &v, &value_of(&mk_succ(mk_zero()))), Ok(true));
}

#[test]
fn check_refl_zero_against_identity() {
    let ty = Term::Id(mk_nat(), mk_zero(), mk_zero());
    assert_eq!(top_check(&Term::Refl(mk_zero()), &ty), Ok(()));
}

#[test]
fn check_refl_against_mismatched_sides_fails() {
    let ty = Term::Id(mk_nat(), mk_zero(), mk_succ(mk_zero()));
    assert_eq!(top_check(&Term::Refl(mk_zero()), &ty), Err(Error::TypeMismatch));
    let ty = Term::Id(mk_nat(), mk_succ(mk_zero()), mk_zero());
    assert_eq!(top_check(&Term::Refl(mk_zero()), &ty), Err(Error::TypeMismatch));
}

#[test]
fn infer_pi_of_naturals_is_universe_zero() {
    let ty = top_infer(&mk_pi("x", mk_nat(), mk_nat())).unwrap();
    assert!(matches!(*ty, Value::Universe(0)));
}

#[test]
fn infer_pi_takes_the_larger_level() {
    let ty = top_infer(&mk_pi("x", Rc::new(Term::Type(2)), mk_nat())).unwrap();
    assert!(matches!(*ty, Value::Universe(3)));
    let ty = top_infer(&mk_pi("x", mk_nat(), Rc::new(Term::Type(4)))).unwrap();
    assert!(matches!(*ty, Value::Universe(5)));
}

#[test]
fn infer_application_of_non_function_is_shape_mismatch() {
    assert_eq!(top_infer(&mk_app(mk_zero(), mk_zero())).err(), Some(Error::ShapeMismatch));
}

#[test]
fn infer_unbound_variable() {
    assert_eq!(top_infer(&mk_var("x")).err(), Some(Error::UnboundVariable));
}

#[test]
fn infer_variable_from_context() {
    let ctx = Env::new().insert("x".to_string(), Rc::new(Value::Nat));
    let ty = infer(FUEL, 0, &ctx, &Env::new(), &mk_var("x")).unwrap();
    assert!(matches!(*ty, Value::Nat));
}

#[test]
fn infer_universe_lives_one_level_up() {
    assert!(matches!(*top_infer(&Term::Type(0)).unwrap(), Value::Universe(1)));
    assert!(matches!(*top_infer(&Term::Type(7)).unwrap(), Value::Universe(8)));
    assert_eq!(top_infer(&Term::Type(usize::MAX)).err(), Some(Error::LevelOverflow));
}

#[test]
fn infer_naturals() {
    assert!(matches!(*top_infer(&Term::Nat).unwrap(), Value::Universe(0)));
    assert!(matches!(*top_infer(&Term::Zero).unwrap(), Value::Nat));
    assert!(matches!(*top_infer(&numeral(3)).unwrap(), Value::Nat));
    assert_eq!(top_infer(&mk_succ(mk_nat())).err(), Some(Error::TypeMismatch));
}

#[test]
fn infer_has_no_rule_for_functions_and_reflexivity() {
    assert_eq!(top_infer(&mk_abs("x", mk_var("x"))).err(), Some(Error::ShapeMismatch));
    assert_eq!(top_infer(&Term::Refl(mk_zero())).err(), Some(Error::ShapeMismatch));
}

#[test]
fn infer_eliminator() {
    let motive = mk_pi("n", mk_nat(), mk_nat());
    let step = mk_abs("acc", mk_succ(mk_var("acc")));
    let t = mk_ind(numeral(2), motive, mk_zero(), step);
    let ty = top_infer(&t).unwrap();
    assert!(matches!(*ty, Value::Nat));
}

#[test]
fn infer_eliminator_checks_both_cases() {
    let motive = mk_pi("n", mk_nat(), mk_nat());
    let step = mk_abs("acc", mk_succ(mk_var("acc")));
    let t = mk_ind(numeral(2), motive.clone(), mk_nat(), step.clone());
    assert_eq!(top_infer(&t).err(), Some(Error::TypeMismatch));
    let t = mk_ind(numeral(2), motive, mk_zero(), mk_abs("acc", mk_nat()));
    assert_eq!(top_infer(&t).err(), Some(Error::TypeMismatch));
}

#[test]
fn infer_eliminator_with_dependent_motive() {
    // The motive sends n to the type of proofs that n equals n. The step
    // must lead from the motive at zero to the motive at one, which the
    // identity function does not.
    let motive = mk_pi("n", mk_nat(), Rc::new(Term::Id(mk_nat(), mk_var("n"), mk_var("n"))));
    let t = mk_ind(mk_zero(), motive, Rc::new(Term::Refl(mk_zero())), mk_abs("p", mk_var("p")));
    assert_eq!(top_infer(&t).err(), Some(Error::TypeMismatch));
}

#[test]
fn infer_eliminator_rejects_bad_motive() {
    let step = mk_abs("acc", mk_succ(mk_var("acc")));
    let t = mk_ind(numeral(2), mk_zero(), mk_zero(), step.clone());
    assert_eq!(top_infer(&t).err(), Some(Error::ShapeMismatch));
    let t = mk_ind(numeral(2), mk_pi("n", Rc::new(Term::Type(0)), mk_nat()), mk_zero(), step.clone());
    assert_eq!(top_infer(&t).err(), Some(Error::TypeMismatch));
    let t = mk_ind(mk_nat(), mk_pi("n", mk_nat(), mk_nat()), mk_zero(), step);
    assert_eq!(top_infer(&t).err(), Some(Error::TypeMismatch));
}

#[test]
fn infer_eliminator_needs_a_function_type_as_motive() {
    let step = mk_abs("acc", mk_succ(mk_var("acc")));
    let t = mk_ind(numeral(2), mk_abs("n", mk_nat()), mk_zero(), step);
    assert_eq!(top_infer(&t).err(), Some(Error::ShapeMismatch));
}

#[test]
fn check_falls_back_to_inference() {
    assert_eq!(top_check(&numeral(2), &mk_nat()), Ok(()));
    assert_eq!(top_check(&numeral(2), &Term::Type(0)), Err(Error::TypeMismatch));
    assert_eq!(top_check(&mk_nat(), &Term::Type(0)), Ok(()));
    assert_eq!(top_check(&mk_abs("x", mk_var("x")), &mk_nat()), Err(Error::ShapeMismatch));
}

#[test]
fn check_function_body_against_codomain() {
    assert_eq!(top_check(&mk_abs("x", mk_succ(mk_var("x"))), &mk_pi("y", mk_nat(), mk_nat())), Ok(()));
    assert_eq!(top_check(&mk_abs("x", mk_nat()), &mk_pi("y", mk_nat(), mk_nat())), Err(Error::TypeMismatch));
    let ty = mk_pi("a", mk_nat(), mk_pi("b", mk_nat(), mk_nat()));
    assert_eq!(top_check(&mk_abs("x", mk_abs("y", mk_var("x"))), &ty), Ok(()));
}

#[test]
fn check_dependent_function() {
    // The function that proves every number equal to itself.
    let ty = mk_pi("n", mk_nat(), Rc::new(Term::Id(mk_nat(), mk_var("n"), mk_var("n"))));
    let t = mk_abs("m", Rc::new(Term::Refl(mk_var("m"))));
    assert_eq!(top_check(&t, &ty), Ok(()));
    let wrong = mk_abs("m", Rc::new(Term::Refl(mk_zero())));
    assert_eq!(top_check(&wrong, &ty), Err(Error::TypeMismatch));
}

#[test]
fn check_without_fuel_fails() {
    assert_eq!(
        check(0, 0, &Env::new(), &Env::new(), &mk_zero(), &Value::Nat),
        Err(Error::FuelExhausted)
    );
}

#[test]
fn universe_of_types() {
    let e = Env::new();
    assert_eq!(universe(FUEL, 0, &e, &e, &mk_nat()), Ok(0));
    assert_eq!(universe(FUEL, 0, &e, &e, &Term::Type(1)), Ok(2));
    assert_eq!(universe(FUEL, 0, &e, &e, &mk_zero()), Err(Error::TypeMismatch));
    assert_eq!(universe(FUEL, 0, &e, &e, &mk_var("x")), Err(Error::UnboundVariable));
}

#[test]
fn varr_ignores_its_argument() {
    let arrow = varr(Rc::new(Value::Nat), Rc::new(Value::Universe(0)));
    assert_same(&*normal(&arrow), &*mk_pi("@0", mk_nat(), Rc::new(Term::Type(0))));
    match arrow.as_ref() {
        Value::Pi(_, cod) => {
            let r = enter(FUEL, cod, Rc::new(Value::Zero)).unwrap();
            assert!(matches!(*r, Value::Universe(0)));
        },
        _ => panic!("varr"),
    }
}

#[test]
fn veq_reports_the_failure_of_the_side_read_first() {
    // Under a bound of three the numeral needs one step more, while the
    // body of the function applies a number.
    let u = value_of(&numeral(3));
    let v = Value::Closure(Closure {
        env: Env::new(),
        param: "x".to_string(),
        body: mk_app(mk_zero(), mk_zero()),
    });
    assert_eq!(veq(3, 0, &u, &v), Err(Error::FuelExhausted));
    assert_eq!(veq(3, 0, &v, &u), Err(Error::ShapeMismatch));
    assert_eq!(veq(3, 0, &v, &v), Err(Error::ShapeMismatch));
}

#[test]
fn eval_ind_evaluates_motive_and_step_even_for_zero() {
    let bad = mk_app(mk_zero(), mk_zero());
    let t = mk_ind(mk_zero(), bad.clone(), mk_zero(), plus_two());
    assert_eq!(eval(FUEL, &Env::new(), &t).err(), Some(Error::ShapeMismatch));
    let t = mk_ind(mk_zero(), mk_abs("n", mk_nat()), mk_zero(), bad);
    assert_eq!(eval(FUEL, &Env::new(), &t).err(), Some(Error::ShapeMismatch));
}

#[test]
fn decided_results_do_not_depend_on_the_bound() {
    let t = mk_ind(numeral(3), mk_abs("n", mk_nat()), numeral(1), plus_two());
    let small = eval(20, &Env::new(), &t).unwrap();
    let large = eval(2000, &Env::new(), &t).unwrap();
    assert_same(&*readback(20, 0, &small).unwrap(), &*readback(2000, 0, &large).unwrap());
    let e = Env::new();
    let ty = value_of(&mk_pi("x", mk_nat(), mk_nat()));
    let f = mk_abs("x", mk_succ(mk_var("x")));
    assert_eq!(check(10, 0, &e, &e, &f, &ty), check(500, 0, &e, &e, &f, &ty));
}
