use nbe_core::formula::{split_implication, Formula};
use nbe_core::names::fresh;

#[test]
fn fresh_is_at_sign_and_decimal() {
    assert_eq!(fresh(0), "@0");
    assert_eq!(fresh(7), "@7");
    assert_eq!(fresh(10), "@10");
    assert_eq!(fresh(409), "@409");
    assert_eq!(fresh(usize::MAX), format!("@{}", usize::MAX));
}

#[test]
fn fresh_names_differ_by_depth() {
    assert_ne!(fresh(1), fresh(10));
    assert_ne!(fresh(12), fresh(21));
}

fn atom(x: &str) -> Formula {
    Formula::Var(x.to_string())
}

fn implies(l: Formula, r: Formula) -> Formula {
    Formula::Implication { left: Box::new(l), right: Box::new(r) }
}

#[test]
fn split_implication_of_variable() {
    let (args, tgt) = split_implication(atom("a"));
    assert!(args.is_empty());
    assert_eq!(format!("{:?}", tgt), format!("{:?}", atom("a")));
}

#[test]
fn split_implication_of_single_implication() {
    let (args, tgt) = split_implication(implies(atom("a"), atom("b")));
    assert_eq!(format!("{:?}", args), format!("{:?}", vec![atom("a")]));
    assert_eq!(format!("{:?}", tgt), format!("{:?}", atom("b")));
}

#[test]
fn split_implication_follows_the_right_spine() {
    let f = implies(implies(atom("a"), atom("b")), implies(atom("c"), atom("d")));
    let (args, tgt) = split_implication(f);
    let expected = vec![implies(atom("a"), atom("b")), atom("c")];
    assert_eq!(format!("{:?}", args), format!("{:?}", expected));
    assert_eq!(format!("{:?}", tgt), format!("{:?}", atom("d")));
}
