//! The rounding arithmetic of the trade computation: integer division that
//! truncates toward zero, with the bounds the manager's contracts rest on.

use vstd::prelude::*;
use vstd::arithmetic::div_mod::{
    lemma_div_nonincreasing, lemma_div_pos_is_pos, lemma_fundamental_div_mod,
    lemma_mod_division_less_than_divisor,
};
use vstd::arithmetic::mul::{
    lemma_mul_basics_4, lemma_mul_is_commutative, lemma_mul_is_distributive_add_other_way,
};

verus! {

/// Integer division truncating toward zero, for a positive divisor: the
/// rounding the trade computation uses. Spec `/` is Euclidean division,
/// which rounds a negative quotient away from zero; truncation instead
/// drops the fractional part toward zero for either sign of the dividend,
/// exactly as the executable `/` of the machine does.
pub open spec fn trunc_div(a: int, b: int) -> int
    recommends
        b > 0,
{
    if a >= 0 {
        a / b
    } else {
        -((-a) / b)
    }
}

/// The truncated quotient never leaves the range spanned by zero and the
/// dividend, so it always fits wherever the dividend fits.
pub proof fn lemma_trunc_div_bounds(a: int, b: int)
    requires
        b >= 1,
    ensures
        a >= 0 ==> 0 <= trunc_div(a, b) <= a,
        a < 0 ==> a <= trunc_div(a, b) <= 0,
{
    if a >= 0 {
        lemma_div_pos_is_pos(a, b);
        lemma_div_nonincreasing(a, b);
    } else {
        lemma_div_pos_is_pos(-a, b);
        lemma_div_nonincreasing(-a, b);
    }
}

/// Truncation never rounds up on a nonnegative dividend: the quotient times
/// the divisor stays at or below the dividend, and falls short of it by
/// less than one whole divisor. Any rounding error is thus strictly less
/// than one unit and always in the divisor's favor.
pub proof fn lemma_trunc_div_is_floor(a: int, b: int)
    requires
        a >= 0,
        b >= 1,
    ensures
        trunc_div(a, b) * b <= a,
        a < (trunc_div(a, b) + 1) * b,
{
    let q = a / b;
    lemma_fundamental_div_mod(a, b);
    lemma_mod_division_less_than_divisor(a, b);
    lemma_mul_is_commutative(q, b);
    lemma_mul_is_distributive_add_other_way(b, q, 1);
    lemma_mul_basics_4(b);
}

} // verus!
