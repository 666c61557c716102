//! The integer point of the plane.
//!
//! Overflow policy: an operation whose result is a point wraps each coordinate at the width
//! of a machine word, so it is defined on every input. An operation whose result is a scalar
//! (`sqr_length`, `dot`) is computed in 128-bit arithmetic and is exact.

use core::ops::{Add, Mul, MulAssign, Neg, Sub};
use vstd::prelude::*;
use vstd::string::StringExecFns;
use crate::decimal::{append_signed_decimal, signed_decimal};
use crate::wrap::{
    lemma_product_bound, wrap, wrapping_difference, wrapping_product, wrapping_sum,
};

verus! {

/// A point of the plane with machine-word integer coordinates.
#[derive(Clone, Copy, Debug, PartialEq, Eq, Structural)]
pub struct Point2 {
    pub x: isize,
    pub y: isize,
}

impl Point2 {
    /// The point (0, 0), for use in contracts.
    pub open spec fn spec_zero() -> Point2 {
        Point2 { x: 0, y: 0 }
    }

    /// The point (1, 1), for use in contracts.
    pub open spec fn spec_one() -> Point2 {
        Point2 { x: 1, y: 1 }
    }

    /// The point (-1, -1), for use in contracts.
    pub open spec fn spec_minus_one() -> Point2 {
        Point2 { x: -1isize, y: -1isize }
    }

    /// The point (1, 0), for use in contracts.
    pub open spec fn spec_x_unit() -> Point2 {
        Point2 { x: 1, y: 0 }
    }

    /// The point (0, 1), for use in contracts.
    pub open spec fn spec_y_unit() -> Point2 {
        Point2 { x: 0, y: 1 }
    }

    /// The component-wise sum, each coordinate wrapped.
    pub open spec fn sum(self, rhs: Point2) -> Point2 {
        Point2 { x: wrap(self.x + rhs.x), y: wrap(self.y + rhs.y) }
    }

    /// The component-wise difference, each coordinate wrapped.
    pub open spec fn difference(self, rhs: Point2) -> Point2 {
        Point2 { x: wrap(self.x - rhs.x), y: wrap(self.y - rhs.y) }
    }

    /// The component-wise product, each coordinate wrapped.
    pub open spec fn product(self, rhs: Point2) -> Point2 {
        Point2 { x: wrap(self.x * rhs.x), y: wrap(self.y * rhs.y) }
    }

    /// Both coordinates multiplied by `k`, each wrapped.
    pub open spec fn multiple(self, k: isize) -> Point2 {
        Point2 { x: wrap(self.x * k), y: wrap(self.y * k) }
    }

    /// The opposite point, each coordinate wrapped.
    pub open spec fn opposite(self) -> Point2 {
        Point2 { x: wrap(-self.x), y: wrap(-self.y) }
    }

    /// The exact dot product `a.x * b.x + a.y * b.y`.
    pub open spec fn dot_spec(a: Point2, b: Point2) -> int {
        a.x * b.x + a.y * b.y
    }

    /// The exact squared Euclidean length `x * x + y * y`.
    pub open spec fn sqr_length_spec(self) -> int {
        self.x * self.x + self.y * self.y
    }

    /// The text `x:<x> y:<y>`, both coordinates in signed decimal notation.
    pub open spec fn text(self) -> Seq<char> {
        seq!['x', ':'] + signed_decimal(self.x as int) + seq![' ', 'y', ':'] + signed_decimal(
            self.y as int,
        )
    }

    /// The point (0, 0).
    #[verifier::when_used_as_spec(spec_zero)]
    pub fn zero() -> (p: Point2)
        ensures
            p == Point2::spec_zero(),
    {
        Point2 { x: 0, y: 0 }
    }

    /// The point (1, 1).
    #[verifier::when_used_as_spec(spec_one)]
    pub fn one() -> (p: Point2)
        ensures
            p == Point2::spec_one(),
    {
        Point2 { x: 1, y: 1 }
    }

    /// The point (-1, -1).
    #[verifier::when_used_as_spec(spec_minus_one)]
    pub fn minus_one() -> (p: Point2)
        ensures
            p == Point2::spec_minus_one(),
    {
        Point2 { x: -1, y: -1 }
    }

    /// The point (1, 0).
    #[verifier::when_used_as_spec(spec_x_unit)]
    pub fn x_unit() -> (p: Point2)
        ensures
            p == Point2::spec_x_unit(),
    {
        Point2 { x: 1, y: 0 }
    }

    /// The point (0, 1).
    #[verifier::when_used_as_spec(spec_y_unit)]
    pub fn y_unit() -> (p: Point2)
        ensures
            p == Point2::spec_y_unit(),
    {
        Point2 { x: 0, y: 1 }
    }

    /// The point of the given coordinates.
    pub fn new(x: isize, y: isize) -> (p: Point2)
        ensures
            p == (Point2 { x, y }),
    {
        Point2 { x, y }
    }

    /// The exact squared Euclidean length.
    pub fn sqr_length(self) -> (r: u128)
        ensures
            r == self.sqr_length_spec(),
    {
        let x: i128 = self.x as i128;
        let y: i128 = self.y as i128;
        proof {
            lemma_product_bound(x as int, x as int);
            lemma_product_bound(y as int, y as int);
            assert(x * x >= 0 && y * y >= 0) by (nonlinear_arith);
        }
        let xx: u128 = (x * x) as u128;
        let yy: u128 = (y * y) as u128;
        xx + yy
    }

    /// The exact dot product of `a` and `b`, or `None` where it is above `i128::MAX`.
    pub fn dot(a: Point2, b: Point2) -> (r: Option<i128>)
        ensures
            r == (if Point2::dot_spec(a, b) <= i128::MAX {
                Some(Point2::dot_spec(a, b) as i128)
            } else {
                None
            }),
    {
        proof {
            lemma_product_bound(a.x as int, b.x as int);
            lemma_product_bound(a.y as int, b.y as int);
        }
        let xx: i128 = (a.x as i128) * (b.x as i128);
        let yy: i128 = (a.y as i128) * (b.y as i128);
        xx.checked_add(yy)
    }

    /// The component-wise product with `f`, each coordinate wrapped.
    pub fn scaled(self, f: Point2) -> (r: Point2)
        ensures
            r == self.product(f),
    {
        Point2 { x: wrapping_product(self.x, f.x), y: wrapping_product(self.y, f.y) }
    }

    /// Replaces the point by its component-wise product with `f`, each coordinate wrapped.
    pub fn scale(&mut self, f: Point2)
        ensures
            *final(self) == old(self).product(f),
    {
        self.x = wrapping_product(self.x, f.x);
        self.y = wrapping_product(self.y, f.y);
    }

    /// The text `x:<x> y:<y>`.
    pub fn to_string(&self) -> (s: String)
        ensures
            s@ == self.text(),
    {
        let mut s = String::from_str("x:");
        append_signed_decimal(&mut s, self.x);
        s.append(" y:");
        append_signed_decimal(&mut s, self.y);
        proof {
            reveal_strlit("x:");
            reveal_strlit(" y:");
            assert("x:"@ =~= seq!['x', ':']);
            assert(" y:"@ =~= seq![' ', 'y', ':']);
        }
        s
    }
}

impl Default for Point2 {
    /// The origin.
    fn default() -> (p: Point2)
        ensures
            p == Point2::spec_zero(),
    {
        Point2 { x: 0, y: 0 }
    }
}

impl vstd::std_specs::ops::AddSpecImpl for Point2 {
    open spec fn obeys_add_spec() -> bool {
        true
    }

    open spec fn add_req(self, rhs: Point2) -> bool {
        true
    }

    open spec fn add_spec(self, rhs: Point2) -> Point2 {
        self.sum(rhs)
    }
}

impl Add for Point2 {
    type Output = Point2;

    /// The component-wise sum, each coordinate wrapped.
    fn add(self, rhs: Point2) -> (r: Point2)
        ensures
            r == self.sum(rhs),
    {
        Point2 { x: wrapping_sum(self.x, rhs.x), y: wrapping_sum(self.y, rhs.y) }
    }
}

impl vstd::std_specs::ops::SubSpecImpl for Point2 {
    open spec fn obeys_sub_spec() -> bool {
        true
    }

    open spec fn sub_req(self, rhs: Point2) -> bool {
        true
    }

    open spec fn sub_spec(self, rhs: Point2) -> Point2 {
        self.difference(rhs)
    }
}

impl Sub for Point2 {
    type Output = Point2;

    /// The component-wise difference, each coordinate wrapped.
    fn sub(self, rhs: Point2) -> (r: Point2)
        ensures
            r == self.difference(rhs),
    {
        Point2 { x: wrapping_difference(self.x, rhs.x), y: wrapping_difference(self.y, rhs.y) }
    }
}

impl vstd::std_specs::ops::MulSpecImpl for Point2 {
    open spec fn obeys_mul_spec() -> bool {
        true
    }

    open spec fn mul_req(self, rhs: Point2) -> bool {
        true
    }

    open spec fn mul_spec(self, rhs: Point2) -> Point2 {
        self.product(rhs)
    }
}

impl Mul for Point2 {
    type Output = Point2;

    /// The component-wise product, each coordinate wrapped.
    fn mul(self, rhs: Point2) -> (r: Point2)
        ensures
            r == self.product(rhs),
    {
        Point2 { x: wrapping_product(self.x, rhs.x), y: wrapping_product(self.y, rhs.y) }
    }
}

impl vstd::std_specs::ops::MulSpecImpl<isize> for Point2 {
    open spec fn obeys_mul_spec() -> bool {
        true
    }

    open spec fn mul_req(self, rhs: isize) -> bool {
        true
    }

    open spec fn mul_spec(self, rhs: isize) -> Point2 {
        self.multiple(rhs)
    }
}

impl Mul<isize> for Point2 {
    type Output = Point2;

    /// Both coordinates multiplied by `rhs`, each wrapped.
    fn mul(self, rhs: isize) -> (r: Point2)
        ensures
            r == self.multiple(rhs),
    {
        Point2 { x: wrapping_product(self.x, rhs), y: wrapping_product(self.y, rhs) }
    }
}

impl MulAssign for Point2 {
    /// Replaces the point by its component-wise product with `rhs`, each coordinate wrapped.
    fn mul_assign(&mut self, rhs: Point2)
        ensures
            *final(self) == old(self).product(rhs),
    {
        self.x = wrapping_product(self.x, rhs.x);
        self.y = wrapping_product(self.y, rhs.y);
    }
}

impl MulAssign<isize> for Point2 {
    /// Multiplies both coordinates by `rhs`, each wrapped.
    fn mul_assign(&mut self, rhs: isize)
        ensures
            *final(self) == old(self).multiple(rhs),
    {
        self.x = wrapping_product(self.x, rhs);
        self.y = wrapping_product(self.y, rhs);
    }
}

impl vstd::std_specs::ops::NegSpecImpl for Point2 {
    open spec fn obeys_neg_spec() -> bool {
        true
    }

    open spec fn neg_req(self) -> bool {
        true
    }

    open spec fn neg_spec(self) -> Point2 {
        self.opposite()
    }
}

impl Neg for Point2 {
    type Output = Point2;

    /// The opposite point, each coordinate wrapped.
    fn neg(self) -> (r: Point2)
        ensures
            r == self.opposite(),
    {
        Point2 { x: wrapping_difference(0, self.x), y: wrapping_difference(0, self.y) }
    }
}

} // verus!
