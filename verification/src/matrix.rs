//! An owned, fixed-capacity sequence of `LENGTH` integers, with indexed read
//! access, in-place scalar transforms, and full reductions.

use vstd::prelude::*;

use crate::fold::{
    fits_i64, lemma_prod_take_succ, lemma_sum_take_succ, prefix_prods_fit, prefix_sums_fit,
    prod_seq, sum_seq,
};

verus! {

/// A fixed-length sequence of exactly `LENGTH` integers. The length is part
/// of the type: two containers of different declared lengths are different,
/// incompatible types, so no length-mismatch error path exists at run time.
pub struct Matrix<const LENGTH: usize> {
    items: [i64; LENGTH],
}

impl<const LENGTH: usize> View for Matrix<LENGTH> {
    type V = Seq<i64>;

    closed spec fn view(&self) -> Seq<i64> {
        self.items@
    }
}

impl<const LENGTH: usize> Matrix<LENGTH> {
    /// Builds a container holding exactly the given elements, in order.
    pub fn new(items: [i64; LENGTH]) -> (m: Self)
        ensures
            m@ == items@,
            m@.len() == LENGTH,
    {
        Matrix { items }
    }

    /// A read-only reference to the element at `index`. Out-of-range access
    /// is a contract violation, ruled out by the precondition.
    pub fn get_by_index(&self, index: usize) -> (r: &i64)
        requires
            index < LENGTH,
        ensures
            *r == self@[index as int],
    {
        &self.items[index]
    }

    /// The fixed length `LENGTH`, independent of the contents.
    pub fn size(&self) -> (n: usize)
        ensures
            n == LENGTH,
            n == self@.len(),
    {
        self.items.len()
    }

    /// A read-only view of the whole backing sequence, in order.
    pub fn get_items(&self) -> (r: &[i64; LENGTH])
        ensures
            r@ == self@,
    {
        &self.items
    }

    /// Replaces every element `e` with `e + value`, in index order, touching
    /// each slot exactly once. The length is unchanged.
    pub fn add_to_each_item(&mut self, value: i64)
        requires
            forall|j: int| 0 <= j < old(self)@.len() ==> fits_i64(old(self)@[j] + value),
        ensures
            final(self)@.len() == old(self)@.len(),
            forall|j: int| 0 <= j < old(self)@.len() ==> final(self)@[j] == old(self)@[j] + value,
    {
        let mut i: usize = 0;
        while i < LENGTH
            invariant
                i <= LENGTH,
                self@.len() == LENGTH,
                old(self)@.len() == LENGTH,
                forall|j: int| 0 <= j < LENGTH ==> fits_i64(old(self)@[j] + value),
                forall|j: int| 0 <= j < i ==> self@[j] == old(self)@[j] + value,
                forall|j: int| i <= j < LENGTH ==> self@[j] == old(self)@[j],
            decreases LENGTH - i,
        {
            self.items[i] = self.items[i] + value;
            i = i + 1;
        }
    }

    /// Replaces every element `e` with `e * value`, in index order, touching
    /// each slot exactly once. The length is unchanged.
    pub fn mul_to_each_item(&mut self, value: i64)
        requires
            forall|j: int| 0 <= j < old(self)@.len() ==> fits_i64(old(self)@[j] * value),
        ensures
            final(self)@.len() == old(self)@.len(),
            forall|j: int| 0 <= j < old(self)@.len() ==> final(self)@[j] == old(self)@[j] * value,
    {
        let mut i: usize = 0;
        while i < LENGTH
            invariant
                i <= LENGTH,
                self@.len() == LENGTH,
                old(self)@.len() == LENGTH,
                forall|j: int| 0 <= j < LENGTH ==> fits_i64(old(self)@[j] * value),
                forall|j: int| 0 <= j < i ==> self@[j] == old(self)@[j] * value,
                forall|j: int| i <= j < LENGTH ==> self@[j] == old(self)@[j],
            decreases LENGTH - i,
        {
            self.items[i] = self.items[i] * value;
            i = i + 1;
        }
    }

    /// The sum of all `LENGTH` elements, computed as a left fold in index
    /// order. The preconditions require a non-empty container and that every
    /// intermediate sum is representable, so the fold cannot overflow.
    pub fn summary(&self) -> (r: i64)
        requires
            LENGTH >= 1,
            prefix_sums_fit(self@),
        ensures
            r == sum_seq(self@),
    {
        let mut total: i64 = self.items[0];
        proof {
            assert(self@.take(1).drop_last() =~= Seq::<i64>::empty());
            assert(sum_seq(Seq::<i64>::empty()) == 0);
        }
        let mut i: usize = 1;
        while i < LENGTH
            invariant
                1 <= i <= LENGTH,
                self@.len() == LENGTH,
                prefix_sums_fit(self@),
                total == sum_seq(self@.take(i as int)),
            decreases LENGTH - i,
        {
            proof {
                lemma_sum_take_succ(self@, i as int);
                assert(fits_i64(sum_seq(self@.take(i as int + 1))));
            }
            total = total + self.items[i];
            i = i + 1;
        }
        proof {
            assert(self@.take(LENGTH as int) =~= self@);
        }
        total
    }

    /// The product of all `LENGTH` elements, computed as a left fold in index
    /// order, under the same non-empty and no-overflow preconditions.
    pub fn multiply(&self) -> (r: i64)
        requires
            LENGTH >= 1,
            prefix_prods_fit(self@),
        ensures
            r == prod_seq(self@),
    {
        let mut total: i64 = self.items[0];
        proof {
            assert(self@.take(1).drop_last() =~= Seq::<i64>::empty());
            assert(prod_seq(Seq::<i64>::empty()) == 1);
        }
        let mut i: usize = 1;
        while i < LENGTH
            invariant
                1 <= i <= LENGTH,
                self@.len() == LENGTH,
                prefix_prods_fit(self@),
                total == prod_seq(self@.take(i as int)),
            decreases LENGTH - i,
        {
            proof {
                lemma_prod_take_succ(self@, i as int);
                assert(fits_i64(prod_seq(self@.take(i as int + 1))));
            }
            total = total * self.items[i];
            i = i + 1;
        }
        proof {
            assert(self@.take(LENGTH as int) =~= self@);
        }
        total
    }
}

} // verus!
