//! A non-owning, ordered list of references to existing containers of one
//! element type and length, with indexed access and reductions that combine
//! each referenced container's own reduction, in list order.

use vstd::prelude::*;

use crate::fold::{fits_i64, prefix_prods_fit, prefix_sums_fit, prod_seq, sum_seq};
use crate::matrix::Matrix;

verus! {

/// The sum, over the unbounded integers, of each referenced container's own
/// element sum, folded left to right in list order.
pub open spec fn sum_of_sums<const LENGTH: usize>(rs: Seq<&Matrix<LENGTH>>) -> int
    decreases rs.len(),
{
    if rs.len() == 0 {
        0
    } else {
        sum_of_sums(rs.drop_last()) + sum_seq(rs.last()@)
    }
}

/// The product, over the unbounded integers, of each referenced container's
/// own element product, folded left to right in list order.
pub open spec fn prod_of_prods<const LENGTH: usize>(rs: Seq<&Matrix<LENGTH>>) -> int
    decreases rs.len(),
{
    if rs.len() == 0 {
        1
    } else {
        prod_of_prods(rs.drop_last()) * prod_seq(rs.last()@)
    }
}

/// Every non-empty prefix of the list has a sum of sums representable as an
/// `i64`; these are the intermediate values of the view's summation.
pub open spec fn prefix_sum_of_sums_fit<const LENGTH: usize>(rs: Seq<&Matrix<LENGTH>>) -> bool {
    forall|k: int| 1 <= k <= rs.len() ==> fits_i64(sum_of_sums(#[trigger] rs.take(k)))
}

/// Every non-empty prefix of the list has a product of products representable
/// as an `i64`.
pub open spec fn prefix_prod_of_prods_fit<const LENGTH: usize>(rs: Seq<&Matrix<LENGTH>>) -> bool {
    forall|k: int| 1 <= k <= rs.len() ==> fits_i64(prod_of_prods(#[trigger] rs.take(k)))
}

proof fn lemma_sum_of_sums_take_succ<const LENGTH: usize>(rs: Seq<&Matrix<LENGTH>>, k: int)
    requires
        0 <= k < rs.len(),
    ensures
        sum_of_sums(rs.take(k + 1)) == sum_of_sums(rs.take(k)) + sum_seq(rs[k]@),
{
    assert(rs.take(k + 1).drop_last() =~= rs.take(k));
}

proof fn lemma_prod_of_prods_take_succ<const LENGTH: usize>(rs: Seq<&Matrix<LENGTH>>, k: int)
    requires
        0 <= k < rs.len(),
    ensures
        prod_of_prods(rs.take(k + 1)) == prod_of_prods(rs.take(k)) * prod_seq(rs[k]@),
{
    assert(rs.take(k + 1).drop_last() =~= rs.take(k));
}

/// A read-only, ordered list of references to containers that all share the
/// element type and the length `LENGTH`. The view owns no element data; each
/// referenced container must outlive it, and may appear more than once.
pub struct MatrixSlice<'a, 'x, const LENGTH: usize> {
    refs_array: &'a [&'x Matrix<LENGTH>],
}

impl<'a, 'x, const LENGTH: usize> MatrixSlice<'a, 'x, LENGTH> {
    /// The ordered list of references the view was built over.
    pub closed spec fn refs(&self) -> Seq<&'x Matrix<LENGTH>> {
        self.refs_array@
    }

    /// Builds a view over the given ordered list of references.
    pub fn new(refs_array: &'a [&'x Matrix<LENGTH>]) -> (s: Self)
        ensures
            s.refs() == refs_array@,
    {
        MatrixSlice { refs_array }
    }

    /// The reference stored at position `index` of the list; its lifetime is
    /// that of the referenced container, not of the view. Out-of-range access
    /// is a contract violation, ruled out by the precondition.
    pub fn get_matrix_by_index(&self, index: usize) -> (r: &'x Matrix<LENGTH>)
        requires
            index < self.refs().len(),
        ensures
            r == self.refs()[index as int],
    {
        self.refs_array[index]
    }

    /// The sum, across all referenced containers in list order, of each
    /// container's own `summary()`: a left fold seeded with the first
    /// container's sum. The preconditions require a non-empty list and that
    /// every intermediate value, inner and outer, is representable.
    pub fn summary(&self) -> (r: i64)
        requires
            LENGTH >= 1,
            self.refs().len() >= 1,
            forall|j: int|
                0 <= j < self.refs().len() ==> prefix_sums_fit((#[trigger] self.refs()[j])@),
            prefix_sum_of_sums_fit(self.refs()),
        ensures
            r == sum_of_sums(self.refs()),
    {
        let length = self.refs_array.len();
        let mut sum: i64 = self.refs_array[0].summary();
        proof {
            assert(self.refs().take(1).drop_last() =~= Seq::<&Matrix<LENGTH>>::empty());
            assert(sum_of_sums(Seq::<&Matrix<LENGTH>>::empty()) == 0);
        }
        let mut i: usize = 1;
        while i < length
            invariant
                1 <= i <= length,
                length == self.refs().len(),
                LENGTH >= 1,
                forall|j: int|
                    0 <= j < self.refs().len() ==> prefix_sums_fit((#[trigger] self.refs()[j])@),
                prefix_sum_of_sums_fit(self.refs()),
                sum == sum_of_sums(self.refs().take(i as int)),
            decreases length - i,
        {
            let inner: i64 = self.refs_array[i].summary();
            proof {
                lemma_sum_of_sums_take_succ(self.refs(), i as int);
                assert(fits_i64(sum_of_sums(self.refs().take(i as int + 1))));
            }
            sum = sum + inner;
            i = i + 1;
        }
        proof {
            assert(self.refs().take(length as int) =~= self.refs());
        }
        sum
    }

    /// The product, across all referenced containers in list order, of each
    /// container's own `multiply()`: a left fold seeded with the first
    /// container's product, under the same non-empty and no-overflow
    /// preconditions.
    pub fn multiply(&self) -> (r: i64)
        requires
            LENGTH >= 1,
            self.refs().len() >= 1,
            forall|j: int|
                0 <= j < self.refs().len() ==> prefix_prods_fit((#[trigger] self.refs()[j])@),
            prefix_prod_of_prods_fit(self.refs()),
        ensures
            r == prod_of_prods(self.refs()),
    {
        let length = self.refs_array.len();
        let mut product: i64 = self.refs_array[0].multiply();
        proof {
            assert(self.refs().take(1).drop_last() =~= Seq::<&Matrix<LENGTH>>::empty());
            assert(prod_of_prods(Seq::<&Matrix<LENGTH>>::empty()) == 1);
        }
        let mut i: usize = 1;
        while i < length
            invariant
                1 <= i <= length,
                length == self.refs().len(),
                LENGTH >= 1,
                forall|j: int|
                    0 <= j < self.refs().len() ==> prefix_prods_fit((#[trigger] self.refs()[j])@),
                prefix_prod_of_prods_fit(self.refs()),
                product == prod_of_prods(self.refs().take(i as int)),
            decreases length - i,
        {
            let inner: i64 = self.refs_array[i].multiply();
            proof {
                lemma_prod_of_prods_take_succ(self.refs(), i as int);
                assert(fits_i64(prod_of_prods(self.refs().take(i as int + 1))));
            }
            product = product * inner;
            i = i + 1;
        }
        proof {
            assert(self.refs().take(length as int) =~= self.refs());
        }
        product
    }
}

} // verus!
