//! Methods for N dimensional vectors of [`Fix`] scalars.

use crate::fx::{fadd, fmul, fsub, Fix};
use vstd::prelude::*;

verus! {

/// Saturating sum of the squares of the first `n` entries.
pub open spec fn sq_sum(s: Seq<Fix>, n: int) -> int
    decreases n,
{
    if n <= 0 {
        0
    } else {
        fadd(sq_sum(s, n - 1), fmul(s[n - 1]@, s[n - 1]@))
    }
}

/// Trait for N dimensional vectors.
pub trait VecN<const N: usize>: Sized + View<V = Seq<Fix>> {
    /// Component-wise saturating sum.
    fn add(&self, other: &[Fix; N]) -> (r: Self)
        ensures
            r@.len() == self@.len(),
            forall|i: int| 0 <= i < self@.len() ==> r@[i]@ == fadd(self@[i]@, other@[i]@),
    ;

    /// Component-wise saturating sum, stored in place.
    fn add_in_place(&mut self, other: &[Fix; N])
        ensures
            final (self)@.len() == old(self)@.len(),
            forall|i: int|
                0 <= i < old(self)@.len() ==> final (self)@[i]@ == fadd(
                    old(self)@[i]@,
                    other@[i]@,
                ),
    ;

    /// Component-wise saturating difference.
    fn sub(&self, other: &[Fix; N]) -> (r: Self)
        ensures
            r@.len() == self@.len(),
            forall|i: int| 0 <= i < self@.len() ==> r@[i]@ == fsub(self@[i]@, other@[i]@),
    ;

    /// Component-wise saturating product with a scalar.
    fn scale(&self, scalar: Fix) -> (r: Self)
        ensures
            r@.len() == self@.len(),
            forall|i: int| 0 <= i < self@.len() ==> r@[i]@ == fmul(self@[i]@, scalar@),
    ;

    /// Component-wise saturating product with a scalar, stored in place.
    fn scale_in_place(&mut self, scale: Fix)
        ensures
            final (self)@.len() == old(self)@.len(),
            forall|i: int|
                0 <= i < old(self)@.len() ==> final (self)@[i]@ == fmul(old(self)@[i]@, scale@),
    ;

    /// Euclidean norm: the fixed-point floor of the square root of the
    /// saturating sum of squared entries.
    fn norm(&self) -> (r: Fix)
        ensures
            crate::fx::sqrt_rel(sq_sum(self@, self@.len() as int), r@),
    ;
}

impl<const N: usize> VecN<N> for [Fix; N] {
    fn add(&self, other: &[Fix; N]) -> (r: Self) {
        let mut r = *self;
        let mut i: usize = 0;
        while i < N
            invariant
                i <= N,
                r@.len() == N,
                forall|j: int| 0 <= j < i ==> r@[j]@ == fadd(self@[j]@, other@[j]@),
                forall|j: int| i <= j < N ==> r@[j] == self@[j],
            decreases N - i,
        {
            r[i] = self[i].add(other[i]);
            i = i + 1;
        }
        r
    }

    fn add_in_place(&mut self, other: &[Fix; N]) {
        let r = VecN::add(self, other);
        *self = r;
    }

    fn sub(&self, other: &[Fix; N]) -> (r: Self) {
        let mut r = *self;
        let mut i: usize = 0;
        while i < N
            invariant
                i <= N,
                r@.len() == N,
                forall|j: int| 0 <= j < i ==> r@[j]@ == fsub(self@[j]@, other@[j]@),
                forall|j: int| i <= j < N ==> r@[j] == self@[j],
            decreases N - i,
        {
            r[i] = self[i].sub(other[i]);
            i = i + 1;
        }
        r
    }

    fn scale(&self, scalar: Fix) -> (r: Self) {
        let mut r = *self;
        let mut i: usize = 0;
        while i < N
            invariant
                i <= N,
                r@.len() == N,
                forall|j: int| 0 <= j < i ==> r@[j]@ == fmul(self@[j]@, scalar@),
                forall|j: int| i <= j < N ==> r@[j] == self@[j],
            decreases N - i,
        {
            r[i] = self[i].mul(scalar);
            i = i + 1;
        }
        r
    }

    fn scale_in_place(&mut self, scale: Fix) {
        let r = VecN::scale(self, scale);
        *self = r;
    }

    fn norm(&self) -> (r: Fix) {
        let mut acc = Fix::zero();
        let mut i: usize = 0;
        while i < N
            invariant
                i <= N,
                acc@ == sq_sum(self@, i as int),
            decreases N - i,
        {
            acc = acc.add(self[i].mul(self[i]));
            i = i + 1;
        }
        acc.sqrt()
    }
}

/// Component-wise saturating sum of three vectors.
pub fn add_three<const N: usize>(a: &[Fix; N], b: &[Fix; N], c: &[Fix; N]) -> (r: [Fix; N])
    ensures
        forall|i: int| 0 <= i < N ==> r@[i]@ == fadd(fadd(a@[i]@, b@[i]@), c@[i]@),
{
    let mut r = *a;
    let mut i: usize = 0;
    while i < N
        invariant
            i <= N,
            r@.len() == N,
            forall|j: int| 0 <= j < i ==> r@[j]@ == fadd(fadd(a@[j]@, b@[j]@), c@[j]@),
        decreases N - i,
    {
        r[i] = a[i].add(b[i]).add(c[i]);
        i = i + 1;
    }
    r
}

/// Component-wise saturating sum of four vectors.
pub fn add_four<const N: usize>(a: &[Fix; N], b: &[Fix; N], c: &[Fix; N], d: &[Fix; N]) -> (r: [Fix;
    N])
    ensures
        forall|i: int| 0 <= i < N ==> r@[i]@ == fadd(fadd(fadd(a@[i]@, b@[i]@), c@[i]@), d@[i]@),
{
    let mut r = *a;
    let mut i: usize = 0;
    while i < N
        invariant
            i <= N,
            r@.len() == N,
            forall|j: int| 0 <= j < i ==> r@[j]@ == fadd(fadd(fadd(a@[j]@, b@[j]@), c@[j]@), d@[j]@),
        decreases N - i,
    {
        r[i] = a[i].add(b[i]).add(c[i]).add(d[i]);
        i = i + 1;
    }
    r
}

} // verus!
