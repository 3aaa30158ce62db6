//! Facts about products and quotients that the rest of the library leans on.

use vstd::arithmetic::div_mod::{
    lemma_div_basics, lemma_div_is_ordered, lemma_div_multiples_vanish, lemma_div_nonincreasing,
    lemma_div_pos_is_pos, lemma_fundamental_div_mod, lemma_fundamental_div_mod_converse,
    lemma_mod_bound,
};
use vstd::arithmetic::mul::{
    lemma_mul_basics, lemma_mul_inequality, lemma_mul_is_commutative,
    lemma_mul_is_distributive_sub_other_way, lemma_mul_nonnegative, lemma_mul_unary_negation,
    lemma_mul_upper_bound,
};
use vstd::prelude::*;

verus! {

/// The part `dx` in `w` of a quantity `d` that is not negative lies between
/// nothing and all of it, is nothing where `dx` is zero, and all where `dx`
/// is `w`.
pub proof fn lemma_part_of(d: int, dx: int, w: int)
    requires
        0 <= d,
        0 <= dx <= w,
        0 < w,
    ensures
        0 <= d * dx / w <= d,
        dx == 0 ==> d * dx / w == 0,
        dx == w ==> d * dx / w == d,
{
    lemma_mul_nonnegative(d, dx);
    lemma_div_pos_is_pos(d * dx, w);
    lemma_mul_inequality(dx, w, d);
    lemma_mul_is_commutative(dx, d);
    lemma_div_is_ordered(d * dx, w * d, w);
    lemma_div_multiples_vanish(d, w);
    if dx == 0 {
        lemma_mul_basics(d);
        lemma_div_basics(w);
    }
    if dx == w {
        lemma_mul_is_commutative(d, w);
    }
}

/// A product is no larger in magnitude than the product of the bounds of
/// its factors.
pub proof fn lemma_product_bound(x: int, a: int, y: int, b: int)
    requires
        -a <= x <= a,
        -b <= y <= b,
    ensures
        -(a * b) <= x * y <= a * b,
{
    let mx = if x >= 0 {
        x
    } else {
        -x
    };
    let my = if y >= 0 {
        y
    } else {
        -y
    };
    lemma_mul_upper_bound(mx, a, my, b);
    lemma_mul_nonnegative(mx, my);
    lemma_mul_unary_negation(x, y);
    lemma_mul_unary_negation(-x, y);
    assert(mx * my == x * y || mx * my == -(x * y));
}

/// An integer held within the range of an `i32`.
pub open spec fn clamp(x: int) -> int {
    if x > i32::MAX {
        i32::MAX as int
    } else if x < i32::MIN {
        i32::MIN as int
    } else {
        x
    }
}

/// A quotient rounded down lies between zero and the dividend; below zero
/// it is one less than minus the quotient of what lies as far above minus
/// one.
pub proof fn lemma_quotient_between(n: int, d: int)
    requires
        0 < d,
    ensures
        n >= 0 ==> 0 <= n / d <= n,
        n < 0 ==> n <= n / d <= -1,
        n < 0 ==> n / d == -((-n - 1) / d) - 1,
{
    if n >= 0 {
        lemma_div_pos_is_pos(n, d);
        lemma_div_nonincreasing(n, d);
    } else {
        let m = -n - 1;
        lemma_div_pos_is_pos(m, d);
        lemma_div_nonincreasing(m, d);
        lemma_fundamental_div_mod(m, d);
        lemma_mod_bound(m, d);
        lemma_mul_is_commutative(d, m / d);
        assert(n == (-(m / d) - 1) * d + (d - 1 - m % d)) by {
            lemma_mul_is_distributive_sub_other_way(d, -(m / d), 1);
            lemma_mul_unary_negation(m / d, d);
            lemma_mul_basics(d);
        }
        lemma_fundamental_div_mod_converse(n, d, -(m / d) - 1, d - 1 - m % d);
    }
}

/// Divides and rounds down.
pub(crate) fn floor_div(n: i128, d: i128) -> (q: i128)
    requires
        d > 0,
        n > i128::MIN,
    ensures
        q == n / d,
        n >= 0 ==> 0 <= q <= n,
        n < 0 ==> n <= q <= -1,
    no_unwind
{
    proof {
        lemma_quotient_between(n as int, d as int);
    }
    if n >= 0 {
        ((n as u128) / (d as u128)) as i128
    } else {
        let m: u128 = (-(n + 1)) as u128;
        proof {
            lemma_div_pos_is_pos(m as int, d as int);
            lemma_div_nonincreasing(m as int, d as int);
        }
        -((m / (d as u128)) as i128) - 1
    }
}

/// Holds an integer within the range of an `i32`.
pub(crate) fn clamped(x: i128) -> (r: i32)
    ensures
        r == clamp(x as int),
    no_unwind
{
    if x > i32::MAX as i128 {
        i32::MAX
    } else if x < i32::MIN as i128 {
        i32::MIN
    } else {
        x as i32
    }
}

} // verus!
