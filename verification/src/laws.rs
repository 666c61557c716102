//! Algebraic laws of the point arithmetic.

use vstd::prelude::*;
use vstd::arithmetic::div_mod::lemma_mod_equivalence;
use crate::point2::Point2;
use crate::wrap::{
    lemma_product_bound, lemma_wrap_congruent, lemma_wrap_in_range, lemma_wrap_unique, word_count,
    wrap,
};

verus! {

/// Adding the origin leaves every point unchanged.
pub proof fn lemma_add_zero(p: Point2)
    ensures
        p.sum(Point2::spec_zero()) == p,
{
    lemma_wrap_in_range(p.x as int);
    lemma_wrap_in_range(p.y as int);
}

/// Multiplying by the point (1, 1) leaves every point unchanged.
pub proof fn lemma_mul_one(p: Point2)
    ensures
        p.product(Point2::spec_one()) == p,
{
    lemma_wrap_in_range(p.x as int);
    lemma_wrap_in_range(p.y as int);
}

/// The opposite of the opposite of a point is the point itself, also where a coordinate is
/// the least machine word.
pub proof fn lemma_neg_involution(p: Point2)
    ensures
        p.opposite().opposite() == p,
{
    lemma_double_negation(p.x);
    lemma_double_negation(p.y);
}

/// Negating a machine word twice, wrapping each time, gives the word back.
proof fn lemma_double_negation(v: isize)
    ensures
        wrap(-wrap(-v)) == v,
{
    let w = wrap(-v);
    lemma_wrap_congruent(-v);
    assert((v - (-w)) % word_count() == 0) by {
        assert(v - (-w) == w - (-v));
    }
    lemma_wrap_unique(-w, v as int);
}

/// Subtracting a point is adding its opposite.
pub proof fn lemma_sub_is_add_opposite(p: Point2, q: Point2)
    ensures
        p.difference(q) == p.sum(q.opposite()),
{
    lemma_difference_by_negation(p.x, q.x);
    lemma_difference_by_negation(p.y, q.y);
}

/// The wrapped difference is the wrapped sum with the wrapped negation.
proof fn lemma_difference_by_negation(a: isize, b: isize)
    ensures
        wrap(a - b) == wrap(a + wrap(-b)),
{
    let m = word_count();
    let n = wrap(-b);
    let s = wrap(a + n);
    lemma_wrap_congruent(-b);
    lemma_wrap_congruent(a + n);
    // s is congruent to a + n, and n to -b, so s is congruent to a - b.
    lemma_mod_equivalence(s as int, a + n, m);
    lemma_mod_equivalence(n as int, -b, m);
    lemma_shift_congruence(n as int, -b, a as int);
    lemma_mod_equivalence(s as int, a - b, m);
    lemma_wrap_unique(a - b, s as int);
}

/// Adding the same value to both sides keeps two values congruent.
proof fn lemma_shift_congruence(x: int, y: int, a: int)
    requires
        x % word_count() == y % word_count(),
    ensures
        (a + x) % word_count() == (a + y) % word_count(),
{
    let m = word_count();
    lemma_mod_equivalence(x, y, m);
    assert((a + x) - (a + y) == x - y);
    lemma_mod_equivalence(a + x, a + y, m);
}

/// The sum of two points does not depend on their order.
pub proof fn lemma_add_commutative(p: Point2, q: Point2)
    ensures
        p.sum(q) == q.sum(p),
{
}

/// The component-wise product of two points does not depend on their order.
pub proof fn lemma_mul_commutative(p: Point2, q: Point2)
    ensures
        p.product(q) == q.product(p),
{
    assert(p.x * q.x == q.x * p.x) by (nonlinear_arith);
    assert(p.y * q.y == q.y * p.y) by (nonlinear_arith);
}

/// Multiplying by the scalar `k` is multiplying by the point (k, k).
pub proof fn lemma_multiple_is_product(p: Point2, k: isize)
    ensures
        p.multiple(k) == p.product(Point2 { x: k, y: k }),
{
}

/// Where every exact coordinate is a machine word, sums, differences, products and
/// opposites are the exact ones.
pub proof fn lemma_exact_in_range(p: Point2, q: Point2)
    ensures
        isize::MIN <= p.x + q.x <= isize::MAX ==> p.sum(q).x == p.x + q.x,
        isize::MIN <= p.y + q.y <= isize::MAX ==> p.sum(q).y == p.y + q.y,
        isize::MIN <= p.x - q.x <= isize::MAX ==> p.difference(q).x == p.x - q.x,
        isize::MIN <= p.y - q.y <= isize::MAX ==> p.difference(q).y == p.y - q.y,
        isize::MIN <= p.x * q.x <= isize::MAX ==> p.product(q).x == p.x * q.x,
        isize::MIN <= p.y * q.y <= isize::MAX ==> p.product(q).y == p.y * q.y,
        p.x != isize::MIN ==> p.opposite().x == -p.x,
        p.y != isize::MIN ==> p.opposite().y == -p.y,
{
    if isize::MIN <= p.x + q.x <= isize::MAX {
        lemma_wrap_in_range(p.x + q.x);
    }
    if isize::MIN <= p.y + q.y <= isize::MAX {
        lemma_wrap_in_range(p.y + q.y);
    }
    if isize::MIN <= p.x - q.x <= isize::MAX {
        lemma_wrap_in_range(p.x - q.x);
    }
    if isize::MIN <= p.y - q.y <= isize::MAX {
        lemma_wrap_in_range(p.y - q.y);
    }
    if isize::MIN <= p.x * q.x <= isize::MAX {
        lemma_wrap_in_range(p.x * q.x);
    }
    if isize::MIN <= p.y * q.y <= isize::MAX {
        lemma_wrap_in_range(p.y * q.y);
    }
    if p.x != isize::MIN {
        lemma_wrap_in_range(-p.x);
    }
    if p.y != isize::MIN {
        lemma_wrap_in_range(-p.y);
    }
}

/// The dot product does not depend on the order of its arguments.
pub proof fn lemma_dot_commutative(a: Point2, b: Point2)
    ensures
        Point2::dot_spec(a, b) == Point2::dot_spec(b, a),
{
    assert(a.x * b.x == b.x * a.x) by (nonlinear_arith);
    assert(a.y * b.y == b.y * a.y) by (nonlinear_arith);
}

/// The dot product fits a signed 128-bit integer unless all four coordinates are the least
/// machine word.
pub proof fn lemma_dot_fits(a: Point2, b: Point2)
    requires
        !(a.x == isize::MIN && a.y == isize::MIN && b.x == isize::MIN && b.y == isize::MIN),
    ensures
        i128::MIN <= Point2::dot_spec(a, b) <= i128::MAX,
{
    lemma_product_bound(a.x as int, b.x as int);
    lemma_product_bound(a.y as int, b.y as int);
}

/// The squared length of a point is its dot product with itself, and is never negative.
pub proof fn lemma_sqr_length_is_self_dot(p: Point2)
    ensures
        p.sqr_length_spec() == Point2::dot_spec(p, p),
        p.sqr_length_spec() >= 0,
{
    assert(p.x * p.x >= 0) by (nonlinear_arith);
    assert(p.y * p.y >= 0) by (nonlinear_arith);
}

/// Only the origin has squared length zero.
pub proof fn lemma_sqr_length_zero(p: Point2)
    ensures
        p.sqr_length_spec() == 0 <==> p == Point2::spec_zero(),
{
    assert(p.x * p.x >= 0 && (p.x * p.x == 0 <==> p.x == 0)) by (nonlinear_arith);
    assert(p.y * p.y >= 0 && (p.y * p.y == 0 <==> p.y == 0)) by (nonlinear_arith);
}

} // verus!
