//! Two's-complement wrapping at the width of a machine word.

use vstd::prelude::*;
use vstd::arithmetic::div_mod::{
    lemma_mod_add_multiples_vanish, lemma_mod_equivalence, lemma_mod_sub_multiples_vanish,
    lemma_mod_twice, lemma_small_mod,
};

verus! {

/// The number of distinct machine words, two to the power of the word width.
pub open spec fn word_count() -> int {
    usize::MAX + 1
}

/// The machine word congruent to `v` modulo [`word_count`].
pub open spec fn wrap(v: int) -> isize {
    let r = v % word_count();
    if r > isize::MAX {
        (r - word_count()) as isize
    } else {
        r as isize
    }
}

/// The signed words are the lower and the upper half of the residues.
pub proof fn lemma_word_halves()
    ensures
        word_count() == 2 * (isize::MAX + 1),
        isize::MIN == -(isize::MAX + 1),
{
}

/// `wrap(v)` differs from `v` by a multiple of [`word_count`].
pub proof fn lemma_wrap_congruent(v: int)
    ensures
        (wrap(v) - v) % word_count() == 0,
{
    let m = word_count();
    let r = v % m;
    lemma_word_halves();
    lemma_mod_twice(v, m);
    if r > isize::MAX {
        lemma_mod_sub_multiples_vanish(r, m);
        lemma_mod_equivalence(r - m, v, m);
    } else {
        lemma_mod_equivalence(r, v, m);
    }
}

/// `wrap(v)` is the only machine word congruent to `v`.
pub proof fn lemma_wrap_unique(v: int, w: int)
    requires
        isize::MIN <= w <= isize::MAX,
        (w - v) % word_count() == 0,
    ensures
        wrap(v) == w,
{
    let m = word_count();
    lemma_word_halves();
    lemma_mod_equivalence(w, v, m);
    if w >= 0 {
        lemma_small_mod(w as nat, m as nat);
    } else {
        lemma_mod_add_multiples_vanish(w, m);
        lemma_small_mod((w + m) as nat, m as nat);
    }
}

/// A value that already is a machine word wraps to itself.
pub proof fn lemma_wrap_in_range(v: int)
    requires
        isize::MIN <= v <= isize::MAX,
    ensures
        wrap(v) == v,
{
    lemma_small_mod(0, word_count() as nat);
    lemma_wrap_unique(v, v);
}

/// The product of two machine words reaches the square of the least word only where both
/// are the least word.
pub proof fn lemma_product_bound(a: int, b: int)
    requires
        isize::MIN <= a <= isize::MAX,
        isize::MIN <= b <= isize::MAX,
    ensures
        -0x4000_0000_0000_0000_0000_0000_0000_0000 < a * b
            <= 0x4000_0000_0000_0000_0000_0000_0000_0000,
        a * b == 0x4000_0000_0000_0000_0000_0000_0000_0000 ==> a == isize::MIN && b
            == isize::MIN,
{
    let h: int = 0x8000_0000_0000_0000;
    assert(-h * h < a * b <= h * h && (a * b == h * h ==> a == -h && b == -h))
        by (nonlinear_arith)
        requires
            -h <= a < h,
            -h <= b < h,
            h > 0,
    ;
    assert(h * h == 0x4000_0000_0000_0000_0000_0000_0000_0000) by (nonlinear_arith)
        requires
            h == 0x8000_0000_0000_0000,
    ;
}

/// The wrapped sum of two machine words.
pub fn wrapping_sum(a: isize, b: isize) -> (r: isize)
    ensures
        r == wrap(a + b),
{
    let r = a.wrapping_add(b);
    proof {
        lemma_word_halves();
        lemma_mod_add_multiples_vanish(0, word_count());
        lemma_mod_sub_multiples_vanish(0, word_count());
        lemma_wrap_unique(a + b, r as int);
    }
    r
}

/// The wrapped difference of two machine words.
pub fn wrapping_difference(a: isize, b: isize) -> (r: isize)
    ensures
        r == wrap(a - b),
{
    let r = a.wrapping_sub(b);
    proof {
        lemma_word_halves();
        lemma_mod_add_multiples_vanish(0, word_count());
        lemma_mod_sub_multiples_vanish(0, word_count());
        lemma_wrap_unique(a - b, r as int);
    }
    r
}

/// The wrapped product of two machine words.
pub fn wrapping_product(a: isize, b: isize) -> (r: isize)
    ensures
        r == wrap(a * b),
{
    a.wrapping_mul(b)
}

} // verus!
