//! Mathematical sums and products of sequences of machine integers, and the
//! lemmas that relate a left fold to its prefixes and to concatenation.

use vstd::prelude::*;

verus! {

/// True when the unbounded integer `x` is representable as an `i64`.
pub open spec fn fits_i64(x: int) -> bool {
    i64::MIN <= x <= i64::MAX
}

/// The arithmetic sum of the elements of `s`, over the unbounded integers.
pub open spec fn sum_seq(s: Seq<i64>) -> int
    decreases s.len(),
{
    if s.len() == 0 {
        0
    } else {
        sum_seq(s.drop_last()) + s.last()
    }
}

/// The arithmetic product of the elements of `s`, over the unbounded integers.
pub open spec fn prod_seq(s: Seq<i64>) -> int
    decreases s.len(),
{
    if s.len() == 0 {
        1
    } else {
        prod_seq(s.drop_last()) * s.last()
    }
}

/// Every non-empty prefix of `s` has a sum representable as an `i64`; these
/// are exactly the intermediate values of a left-to-right summation.
pub open spec fn prefix_sums_fit(s: Seq<i64>) -> bool {
    forall|k: int| 1 <= k <= s.len() ==> fits_i64(sum_seq(#[trigger] s.take(k)))
}

/// Every non-empty prefix of `s` has a product representable as an `i64`.
pub open spec fn prefix_prods_fit(s: Seq<i64>) -> bool {
    forall|k: int| 1 <= k <= s.len() ==> fits_i64(prod_seq(#[trigger] s.take(k)))
}

/// Extending a prefix by one element adds that element to the prefix sum.
pub proof fn lemma_sum_take_succ(s: Seq<i64>, k: int)
    requires
        0 <= k < s.len(),
    ensures
        sum_seq(s.take(k + 1)) == sum_seq(s.take(k)) + s[k],
{
    assert(s.take(k + 1).drop_last() =~= s.take(k));
}

/// Extending a prefix by one element multiplies the prefix product by it.
pub proof fn lemma_prod_take_succ(s: Seq<i64>, k: int)
    requires
        0 <= k < s.len(),
    ensures
        prod_seq(s.take(k + 1)) == prod_seq(s.take(k)) * s[k],
{
    assert(s.take(k + 1).drop_last() =~= s.take(k));
}

/// The sum of a concatenation is the sum of the parts: summing left to right
/// gives the same total as summing any two-way grouping of the sequence, so
/// the grouping order of the addition is immaterial.
pub proof fn lemma_sum_seq_append(a: Seq<i64>, b: Seq<i64>)
    ensures
        sum_seq(a + b) == sum_seq(a) + sum_seq(b),
    decreases b.len(),
{
    if b.len() == 0 {
        assert(a + b =~= a);
    } else {
        lemma_sum_seq_append(a, b.drop_last());
        assert((a + b).drop_last() =~= a + b.drop_last());
    }
}

/// The product of a concatenation is the product of the parts.
pub proof fn lemma_prod_seq_append(a: Seq<i64>, b: Seq<i64>)
    ensures
        prod_seq(a + b) == prod_seq(a) * prod_seq(b),
    decreases b.len(),
{
    if b.len() == 0 {
        assert(a + b =~= a);
    } else {
        lemma_prod_seq_append(a, b.drop_last());
        assert((a + b).drop_last() =~= a + b.drop_last());
        let x = prod_seq(a);
        let y = prod_seq(b.drop_last());
        let z = b.last() as int;
        assert((x * y) * z == x * (y * z)) by (nonlinear_arith);
    }
}

} // verus!
