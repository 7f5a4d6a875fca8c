//! Names of the binders that reading a value back introduces.
//!
//! The binder crossed at depth `k` is named `@k`, with `k` in decimal. The
//! depth is the only source of freshness, so that two depths never share a
//! name.

use vstd::prelude::*;
use vstd::string::*;

verus! {

/// The character of a single decimal digit.
pub open spec fn digit(d: nat) -> char {
    if d == 0 {
        '0'
    } else if d == 1 {
        '1'
    } else if d == 2 {
        '2'
    } else if d == 3 {
        '3'
    } else if d == 4 {
        '4'
    } else if d == 5 {
        '5'
    } else if d == 6 {
        '6'
    } else if d == 7 {
        '7'
    } else if d == 8 {
        '8'
    } else {
        '9'
    }
}

/// The decimal numeral of `n`, most significant digit first, without leading
/// zeros.
pub open spec fn decimal(n: nat) -> Seq<char>
    decreases n,
{
    if n < 10 {
        seq![digit(n)]
    } else {
        decimal(n / 10).push(digit(n % 10))
    }
}

/// The name of the binder crossed at depth `k`: an at sign, then `k` in
/// decimal.
pub open spec fn fresh_name(k: nat) -> Seq<char> {
    seq!['@'] + decimal(k)
}

/// The number that a decimal numeral denotes.
pub open spec fn numeral_value(s: Seq<char>) -> nat
    decreases s.len(),
{
    if s.len() == 0 {
        0
    } else {
        10 * numeral_value(s.drop_last()) + digit_value(s.last())
    }
}

/// The number that a digit character denotes.
pub open spec fn digit_value(c: char) -> nat {
    if c == '1' {
        1
    } else if c == '2' {
        2
    } else if c == '3' {
        3
    } else if c == '4' {
        4
    } else if c == '5' {
        5
    } else if c == '6' {
        6
    } else if c == '7' {
        7
    } else if c == '8' {
        8
    } else if c == '9' {
        9
    } else {
        0
    }
}

/// A numeral denotes the number it was written for.
pub proof fn lemma_decimal_value(n: nat)
    ensures
        numeral_value(decimal(n)) == n,
    decreases n,
{
    if n < 10 {
        assert(decimal(n).drop_last() =~= Seq::<char>::empty());
        assert(decimal(n).last() == digit(n));
        assert(numeral_value(decimal(n).drop_last()) == 0);
    } else {
        lemma_decimal_value(n / 10);
        assert(decimal(n).drop_last() =~= decimal(n / 10));
        assert(decimal(n).last() == digit(n % 10));
    }
}

/// Distinct depths have distinct names.
pub proof fn lemma_fresh_name_injective(i: nat, j: nat)
    requires
        fresh_name(i) == fresh_name(j),
    ensures
        i == j,
{
    assert(fresh_name(i).subrange(1, fresh_name(i).len() as int) =~= decimal(i));
    assert(fresh_name(j).subrange(1, fresh_name(j).len() as int) =~= decimal(j));
    lemma_decimal_value(i);
    lemma_decimal_value(j);
}

/// Every fresh name starts with an at sign.
pub proof fn lemma_fresh_name_head(k: nat)
    ensures
        fresh_name(k).len() >= 2,
        fresh_name(k)[0] == '@',
    decreases k,
{
    if k >= 10 {
        lemma_fresh_name_head(k / 10);
    }
}

fn digit_str(d: usize) -> (s: &'static str)
    requires
        d < 10,
    ensures
        s@ == seq![digit(d as nat)],
{
    proof {
        reveal_strlit("0");
        reveal_strlit("1");
        reveal_strlit("2");
        reveal_strlit("3");
        reveal_strlit("4");
        reveal_strlit("5");
        reveal_strlit("6");
        reveal_strlit("7");
        reveal_strlit("8");
        reveal_strlit("9");
    }
    let s = if d == 0 {
        "0"
    } else if d == 1 {
        "1"
    } else if d == 2 {
        "2"
    } else if d == 3 {
        "3"
    } else if d == 4 {
        "4"
    } else if d == 5 {
        "5"
    } else if d == 6 {
        "6"
    } else if d == 7 {
        "7"
    } else if d == 8 {
        "8"
    } else {
        "9"
    };
    assert(s@ =~= seq![digit(d as nat)]);
    s
}

fn decimal_string(n: usize) -> (s: String)
    ensures
        s@ == decimal(n as nat),
    decreases n,
{
    if n < 10 {
        String::from_str(digit_str(n))
    } else {
        let mut s = decimal_string(n / 10);
        s.append(digit_str(n % 10));
        assert(s@ =~= decimal(n as nat));
        s
    }
}

/// The name of the binder crossed at depth `k`.
pub fn fresh(k: usize) -> (s: String)
    ensures
        s@ == fresh_name(k as nat),
{
    proof {
        reveal_strlit("@");
    }
    let mut s = String::from_str("@");
    let digits = decimal_string(k);
    s.append(digits.as_str());
    assert(s@ =~= fresh_name(k as nat));
    s
}

} // verus!
