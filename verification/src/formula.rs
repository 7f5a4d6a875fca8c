//! Formulas of implicational propositional logic, and their decomposition
//! into premises and conclusion.

use vstd::prelude::*;

verus! {

/// A formula built from propositional variables by implication.
#[derive(Debug)]
pub enum Formula {
    /// A propositional variable.
    Var(String),
    /// The implication from `left` to `right`.
    Implication { left: Box<Formula>, right: Box<Formula> },
}

/// The premises of a formula: read as `a1 -> (a2 -> ... (an -> c))` with a
/// variable `c`, the formulas `a1` to `an` in this order.
pub open spec fn premises(f: Formula) -> Seq<Formula>
    decreases f,
{
    match f {
        Formula::Var(_) => Seq::empty(),
        Formula::Implication { left, right } => seq![*left] + premises(*right),
    }
}

/// The conclusion of a formula: the variable at the end of its chain of
/// implications.
pub open spec fn conclusion(f: Formula) -> Formula
    decreases f,
{
    match f {
        Formula::Var(_) => f,
        Formula::Implication { left, right } => conclusion(*right),
    }
}

/// The formula that leads from the premises `args`, in this order, to
/// `target`.
pub open spec fn implication(args: Seq<Formula>, target: Formula) -> Formula
    decreases args.len(),
{
    if args.len() == 0 {
        target
    } else {
        Formula::Implication {
            left: Box::new(args[0]),
            right: Box::new(implication(args.drop_first(), target)),
        }
    }
}

/// The conclusion of a formula is a variable, and the formula is the
/// implication that leads from its premises to its conclusion.
pub proof fn lemma_split_rebuilds(f: Formula)
    ensures
        conclusion(f) is Var,
        implication(premises(f), conclusion(f)) == f,
    decreases f,
{
    match f {
        Formula::Var(_) => {},
        Formula::Implication { left, right } => {
            lemma_split_rebuilds(*right);
            assert(premises(f).drop_first() =~= premises(*right));
        },
    }
}

/// Splits a formula into its premises and its conclusion.
pub fn split_implication(formula: Formula) -> (r: (Vec<Formula>, Formula))
    ensures
        r.0@ == premises(formula),
        r.1 == conclusion(formula),
{
    let mut args: Vec<Formula> = Vec::new();
    let mut rest = formula;
    loop
        invariant
            premises(formula) == args@ + premises(rest),
            conclusion(formula) == conclusion(rest),
        decreases rest,
    {
        match rest {
            Formula::Var(x) => {
                assert(args@ + premises(Formula::Var(x)) =~= args@);
                return (args, Formula::Var(x));
            },
            Formula::Implication { left, right } => {
                assert(args@.push(*left) + premises(*right) =~= args@ + premises(rest));
                args.push(*left);
                rest = *right;
            },
        }
    }
}

} // verus!
