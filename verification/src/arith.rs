//! Facts of integer arithmetic that the index computations rest on.

use vstd::arithmetic::div_mod::{lemma_fundamental_div_mod, lemma_mod_bound};
use vstd::arithmetic::mul::{lemma_mul_inequality, lemma_mul_is_commutative};
use vstd::prelude::*;

verus! {

/// The `k`-th block of `d` items lies within `len` items when `k` is below
/// the number of whole blocks.
pub proof fn lemma_block_in_range(len: int, d: int, k: int)
    requires
        0 <= len,
        0 < d,
        0 <= k < len / d,
    ensures
        0 <= k * d,
        k * d + d <= len,
{
    lemma_fundamental_div_mod(len, d);
    lemma_mod_bound(len, d);
    lemma_mul_inequality(k + 1, len / d, d);
    lemma_mul_inequality(0, k, d);
    lemma_mul_is_commutative(d, len / d);
    assert((k + 1) * d == k * d + d) by (nonlinear_arith);
}

/// The `k`-th item of a stride of `d` that starts at `c` lies within `len`
/// items when `k` is at most the quotient of what is behind `c`.
pub proof fn lemma_stride_in_range(len: int, d: int, c: int, k: int)
    requires
        0 <= c < d,
        c < len,
        0 <= k <= (len - c - 1) / d,
    ensures
        0 <= k * d,
        k * d + c < len,
{
    let rest = len - c - 1;
    lemma_fundamental_div_mod(rest, d);
    lemma_mod_bound(rest, d);
    lemma_mul_inequality(k, rest / d, d);
    lemma_mul_inequality(0, k, d);
    lemma_mul_is_commutative(d, rest / d);
}

} // verus!
