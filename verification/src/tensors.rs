//! Multi-index arrays of rank zero to eight, stored flat in row-major
//! order: the first index varies slowest, the last fastest.
//!
//! Every tensor carries its dimensions; the stored element count
//! always equals the product of their sizes.

use vstd::prelude::*;

use crate::dimensions::{Dim, spec_dim_show};
use crate::types::names_view;

verus! {

/// What every tensor offers: its rank and its stored element count.
pub trait Tensor: Sized {
    /// The number of stored elements, as the length of the flat data.
    spec fn spec_count(&self) -> int;

    /// The number of dimensions.
    fn rank(&self) -> u16;

    /// The total number of stored elements.
    fn element_count(&self) -> (r: u64)
        ensures
            r == self.spec_count(),
    ;
}

/// A tensor of rank zero: one value.
#[derive(Clone, Copy, PartialEq, Debug)]
pub struct Tensor0<V> {
    pub data: V,
}

/// A tensor of rank one.
#[derive(Clone, PartialEq, Debug)]
pub struct Tensor1<V> {
    pub d: Dim,
    pub data: Vec<V>,
}

/// A tensor of rank two.
#[derive(Clone, PartialEq, Debug)]
pub struct Tensor2<V> {
    pub d1: Dim,
    pub d2: Dim,
    pub data: Vec<V>,
}

/// A tensor of rank three.
#[derive(Clone, PartialEq, Debug)]
pub struct Tensor3<V> {
    pub d1: Dim,
    pub d2: Dim,
    pub d3: Dim,
    pub data: Vec<V>,
}

/// A tensor of rank four.
#[derive(Clone, PartialEq, Debug)]
pub struct Tensor4<V> {
    pub d1: Dim,
    pub d2: Dim,
    pub d3: Dim,
    pub d4: Dim,
    pub data: Vec<V>,
}

/// A tensor of rank five.
#[derive(Clone, PartialEq, Debug)]
pub struct Tensor5<V> {
    pub d1: Dim,
    pub d2: Dim,
    pub d3: Dim,
    pub d4: Dim,
    pub d5: Dim,
    pub data: Vec<V>,
}

/// A tensor of rank six.
#[derive(Clone, PartialEq, Debug)]
pub struct Tensor6<V> {
    pub d1: Dim,
    pub d2: Dim,
    pub d3: Dim,
    pub d4: Dim,
    pub d5: Dim,
    pub d6: Dim,
    pub data: Vec<V>,
}

/// A tensor of rank seven.
#[derive(Clone, PartialEq, Debug)]
pub struct Tensor7<V> {
    pub d1: Dim,
    pub d2: Dim,
    pub d3: Dim,
    pub d4: Dim,
    pub d5: Dim,
    pub d6: Dim,
    pub d7: Dim,
    pub data: Vec<V>,
}

/// A tensor of rank eight.
#[derive(Clone, PartialEq, Debug)]
pub struct Tensor8<V> {
    pub d1: Dim,
    pub d2: Dim,
    pub d3: Dim,
    pub d4: Dim,
    pub d5: Dim,
    pub d6: Dim,
    pub d7: Dim,
    pub d8: Dim,
    pub data: Vec<V>,
}

impl<V> Tensor0<V> {
    /// Wrap one value as a rank-zero tensor.
    pub fn new(value: V) -> (r: Self)
        ensures
            r.data == value,
    {
        Tensor0 { data: value }
    }

    /// Read the single value.
    pub fn get(&self) -> (r: &V)
        ensures
            r == &self.data,
    {
        &self.data
    }

    /// A rank-zero tensor has no dimensions.
    pub fn dims(&self) -> () {
    }

    /// The number of stored elements.
    pub fn count(&self) -> (r: u64)
        ensures
            r == 1,
    {
        1
    }
}

impl<V> Tensor1<V> {
    /// The stored element count matches the dimension.
    pub open spec fn wf(&self) -> bool {
        self.data@.len() == self.d.v
    }

    /// A rank-one tensor filled with copies of one value.
    pub fn new(d: Dim, value: V) -> (r: Self) where V: Clone
        ensures
            r.d == d,
            r.wf(),
            forall|i: int|
                0 <= i < r.data@.len() ==> vstd::pervasive::cloned::<V>(value, #[trigger] r.data@[i]),
    {
        let data = vec![value; d.as_usize()];
        Tensor1 { d, data }
    }

    /// The dimension tuple.
    pub fn dims(&self) -> (r: (Dim,))
        ensures
            r.0 == self.d,
    {
        (self.d,)
    }

    /// The number of stored elements.
    pub fn count(&self) -> (r: u64)
        ensures
            r == self.data@.len(),
    {
        self.data.len() as u64
    }

    /// Keep the first `d` elements of a vector as a rank-one tensor.
    pub fn from_vector_with_dim(d: Dim, values: Vec<V>) -> (r: Self)
        requires
            values@.len() >= d.v,
        ensures
            r.d == d,
            r.wf(),
            r.data@ == values@.subrange(0, d.v as int),
    {
        let mut values = values;
        values.truncate(d.as_usize());
        Tensor1 { d, data: values }
    }

    /// Re-tag the tensor with another dimension of the same size; the
    /// tensor comes back unchanged when the sizes differ.
    pub fn try_cast(self, d: Dim) -> (r: Result<Tensor1<V>, Tensor1<V>>)
        ensures
            self.data@.len() == d.v ==> (r matches Ok(t) && t.d == d && t.data == self.data),
            self.data@.len() != d.v ==> r == Err::<Tensor1<V>, Tensor1<V>>(self),
    {
        if self.data.len() == d.as_usize() {
            Ok(Tensor1 { d, data: self.data })
        } else {
            Err(self)
        }
    }
}

impl<V> Tensor2<V> {
    /// The stored element count is the product of the dimensions.
    pub open spec fn wf(&self) -> bool {
        self.data@.len() == self.d1.v * self.d2.v
    }

    /// A rank-two tensor filled with copies of one value.
    pub fn new(d1: Dim, d2: Dim, value: V) -> (r: Self) where V: Clone
        requires
            d1.v * d2.v <= usize::MAX,
        ensures
            r.d1 == d1,
            r.d2 == d2,
            r.wf(),
            forall|i: int|
                0 <= i < r.data@.len() ==> vstd::pervasive::cloned::<V>(value, #[trigger] r.data@[i]),
    {
        let n = d1.as_usize() * d2.as_usize();
        let data = vec![value; n];
        Tensor2 { d1, d2, data }
    }

    /// The dimension tuple.
    pub fn dims(&self) -> (r: (Dim, Dim))
        ensures
            r == (self.d1, self.d2),
    {
        (self.d1, self.d2)
    }

    /// The number of stored elements.
    pub fn count(&self) -> (r: u64)
        ensures
            r == self.data@.len(),
    {
        self.data.len() as u64
    }

    /// Re-tag the tensor with dimensions of the same sizes; the tensor
    /// comes back unchanged when any size differs.
    pub fn try_cast(self, d1: Dim, d2: Dim) -> (r: Result<Tensor2<V>, Tensor2<V>>)
        ensures
            self.d1.v == d1.v && self.d2.v == d2.v ==> (r matches Ok(t) && t.d1 == d1 && t.d2 == d2
                && t.data == self.data),
            !(self.d1.v == d1.v && self.d2.v == d2.v) ==> r == Err::<Tensor2<V>, Tensor2<V>>(self),
    {
        if self.d1 == d1 && self.d2 == d2 {
            Ok(Tensor2 { d1, d2, data: self.data })
        } else {
            Err(self)
        }
    }
}

impl<V> Tensor3<V> {
    /// The stored element count is the product of the dimensions.
    pub open spec fn wf(&self) -> bool {
        self.data@.len() == (self.d1.v * self.d2.v) * self.d3.v
    }

    /// The number of stored elements.
    pub fn count(&self) -> (r: u64)
        ensures
            r == self.data@.len(),
    {
        self.data.len() as u64
    }

    /// Re-tag the tensor with dimensions of the same sizes; the tensor
    /// comes back unchanged when any size differs.
    pub fn try_cast(self, d1: Dim, d2: Dim, d3: Dim) -> (r: Result<Tensor3<V>, Tensor3<V>>)
        ensures
            self.d1.v == d1.v && self.d2.v == d2.v && self.d3.v == d3.v ==> (r matches Ok(t) && t.d1
                == d1 && t.d2 == d2 && t.d3 == d3 && t.data == self.data),
            !(self.d1.v == d1.v && self.d2.v == d2.v && self.d3.v == d3.v) ==> r == Err::<
                Tensor3<V>,
                Tensor3<V>,
            >(self),
    {
        if self.d1 == d1 && self.d2 == d2 && self.d3 == d3 {
            Ok(Tensor3 { d1, d2, d3, data: self.data })
        } else {
            Err(self)
        }
    }
}

impl<V> Tensor4<V> {
    /// The stored element count is the product of the dimensions.
    pub open spec fn wf(&self) -> bool {
        self.data@.len() == ((self.d1.v * self.d2.v) * self.d3.v) * self.d4.v
    }

    /// The number of stored elements.
    pub fn count(&self) -> (r: u64)
        ensures
            r == self.data@.len(),
    {
        self.data.len() as u64
    }

    /// Re-tag the tensor with dimensions of the same sizes; the tensor
    /// comes back unchanged when any size differs.
    pub fn try_cast(self, d1: Dim, d2: Dim, d3: Dim, d4: Dim) -> (r: Result<
        Tensor4<V>,
        Tensor4<V>,
    >)
        ensures
            self.d1.v == d1.v && self.d2.v == d2.v && self.d3.v == d3.v && self.d4.v == d4.v ==> (r
                matches Ok(t) && t.d1 == d1 && t.d2 == d2 && t.d3 == d3 && t.d4 == d4 && t.data
                == self.data),
            !(self.d1.v == d1.v && self.d2.v == d2.v && self.d3.v == d3.v && self.d4.v == d4.v)
                ==> r == Err::<Tensor4<V>, Tensor4<V>>(self),
    {
        if self.d1 == d1 && self.d2 == d2 && self.d3 == d3 && self.d4 == d4 {
            Ok(Tensor4 { d1, d2, d3, d4, data: self.data })
        } else {
            Err(self)
        }
    }
}

impl<V> Tensor5<V> {
    /// The stored element count is the product of the dimensions.
    pub open spec fn wf(&self) -> bool {
        self.data@.len() == (((self.d1.v * self.d2.v) * self.d3.v) * self.d4.v) * self.d5.v
    }

    /// The number of stored elements.
    pub fn count(&self) -> (r: u64)
        ensures
            r == self.data@.len(),
    {
        self.data.len() as u64
    }

    /// Re-tag the tensor with dimensions of the same sizes; the tensor
    /// comes back unchanged when any size differs.
    pub fn try_cast(self, d1: Dim, d2: Dim, d3: Dim, d4: Dim, d5: Dim) -> (r: Result<
        Tensor5<V>,
        Tensor5<V>,
    >)
        ensures
            self.d1.v == d1.v && self.d2.v == d2.v && self.d3.v == d3.v && self.d4.v == d4.v
                && self.d5.v == d5.v ==> (r matches Ok(t) && t.d1 == d1 && t.d2 == d2 && t.d3
                == d3 && t.d4 == d4 && t.d5 == d5 && t.data == self.data),
            !(self.d1.v == d1.v && self.d2.v == d2.v && self.d3.v == d3.v && self.d4.v == d4.v
                && self.d5.v == d5.v) ==> r == Err::<Tensor5<V>, Tensor5<V>>(self),
    {
        if self.d1 == d1 && self.d2 == d2 && self.d3 == d3 && self.d4 == d4 && self.d5 == d5 {
            Ok(Tensor5 { d1, d2, d3, d4, d5, data: self.data })
        } else {
            Err(self)
        }
    }
}

impl<V> Tensor6<V> {
    /// The stored element count is the product of the dimensions.
    pub open spec fn wf(&self) -> bool {
        self.data@.len() == ((((self.d1.v * self.d2.v) * self.d3.v) * self.d4.v) * self.d5.v)
            * self.d6.v
    }

    /// The number of stored elements.
    pub fn count(&self) -> (r: u64)
        ensures
            r == self.data@.len(),
    {
        self.data.len() as u64
    }

    /// Re-tag the tensor with dimensions of the same sizes; the tensor
    /// comes back unchanged when any size differs.
    pub fn try_cast(self, d1: Dim, d2: Dim, d3: Dim, d4: Dim, d5: Dim, d6: Dim) -> (r: Result<
        Tensor6<V>,
        Tensor6<V>,
    >)
        ensures
            self.d1.v == d1.v && self.d2.v == d2.v && self.d3.v == d3.v && self.d4.v == d4.v
                && self.d5.v == d5.v && self.d6.v == d6.v ==> (r matches Ok(t) && t.d1 == d1
                && t.d2 == d2 && t.d3 == d3 && t.d4 == d4 && t.d5 == d5 && t.d6 == d6 && t.data
                == self.data),
            !(self.d1.v == d1.v && self.d2.v == d2.v && self.d3.v == d3.v && self.d4.v == d4.v
                && self.d5.v == d5.v && self.d6.v == d6.v) ==> r == Err::<Tensor6<V>, Tensor6<V>>(
                self,
            ),
    {
        if self.d1 == d1 && self.d2 == d2 && self.d3 == d3 && self.d4 == d4 && self.d5 == d5
            && self.d6 == d6 {
            Ok(Tensor6 { d1, d2, d3, d4, d5, d6, data: self.data })
        } else {
            Err(self)
        }
    }
}

impl<V> Tensor7<V> {
    /// The stored element count is the product of the dimensions.
    pub open spec fn wf(&self) -> bool {
        self.data@.len() == (((((self.d1.v * self.d2.v) * self.d3.v) * self.d4.v) * self.d5.v)
            * self.d6.v) * self.d7.v
    }

    /// The number of stored elements.
    pub fn count(&self) -> (r: u64)
        ensures
            r == self.data@.len(),
    {
        self.data.len() as u64
    }

    /// Re-tag the tensor with dimensions of the same sizes; the tensor
    /// comes back unchanged when any size differs.
    pub fn try_cast(self, d1: Dim, d2: Dim, d3: Dim, d4: Dim, d5: Dim, d6: Dim, d7: Dim) -> (r:
        Result<Tensor7<V>, Tensor7<V>>)
        ensures
            self.d1.v == d1.v && self.d2.v == d2.v && self.d3.v == d3.v && self.d4.v == d4.v
                && self.d5.v == d5.v && self.d6.v == d6.v && self.d7.v == d7.v ==> (r matches
                Ok(t) && t.d1 == d1 && t.d2 == d2 && t.d3 == d3 && t.d4 == d4 && t.d5 == d5 && t.d6
                == d6 && t.d7 == d7 && t.data == self.data),
            !(self.d1.v == d1.v && self.d2.v == d2.v && self.d3.v == d3.v && self.d4.v == d4.v
                && self.d5.v == d5.v && self.d6.v == d6.v && self.d7.v == d7.v) ==> r == Err::<
                Tensor7<V>,
                Tensor7<V>,
            >(self),
    {
        if self.d1 == d1 && self.d2 == d2 && self.d3 == d3 && self.d4 == d4 && self.d5 == d5
            && self.d6 == d6 && self.d7 == d7 {
            Ok(Tensor7 { d1, d2, d3, d4, d5, d6, d7, data: self.data })
        } else {
            Err(self)
        }
    }
}

impl<V> Tensor8<V> {
    /// The stored element count is the product of the dimensions.
    pub open spec fn wf(&self) -> bool {
        self.data@.len() == ((((((self.d1.v * self.d2.v) * self.d3.v) * self.d4.v) * self.d5.v)
            * self.d6.v) * self.d7.v) * self.d8.v
    }

    /// The number of stored elements.
    pub fn count(&self) -> (r: u64)
        ensures
            r == self.data@.len(),
    {
        self.data.len() as u64
    }

    /// Re-tag the tensor with dimensions of the same sizes; the tensor
    /// comes back unchanged when any size differs.
    pub fn try_cast(
        self,
        d1: Dim,
        d2: Dim,
        d3: Dim,
        d4: Dim,
        d5: Dim,
        d6: Dim,
        d7: Dim,
        d8: Dim,
    ) -> (r: Result<Tensor8<V>, Tensor8<V>>)
        ensures
            self.d1.v == d1.v && self.d2.v == d2.v && self.d3.v == d3.v && self.d4.v == d4.v
                && self.d5.v == d5.v && self.d6.v == d6.v && self.d7.v == d7.v && self.d8.v == d8.v
                ==> (r matches Ok(t) && t.d1 == d1 && t.d2 == d2 && t.d3 == d3 && t.d4 == d4
                && t.d5 == d5 && t.d6 == d6 && t.d7 == d7 && t.d8 == d8 && t.data == self.data),
            !(self.d1.v == d1.v && self.d2.v == d2.v && self.d3.v == d3.v && self.d4.v == d4.v
                && self.d5.v == d5.v && self.d6.v == d6.v && self.d7.v == d7.v && self.d8.v
                == d8.v) ==> r == Err::<Tensor8<V>, Tensor8<V>>(self),
    {
        if self.d1 == d1 && self.d2 == d2 && self.d3 == d3 && self.d4 == d4 && self.d5 == d5
            && self.d6 == d6 && self.d7 == d7 && self.d8 == d8 {
            Ok(Tensor8 { d1, d2, d3, d4, d5, d6, d7, d8, data: self.data })
        } else {
            Err(self)
        }
    }
}

impl<V> Tensor for Tensor0<V> {
    open spec fn spec_count(&self) -> int {
        1
    }

    fn rank(&self) -> u16 {
        0
    }

    fn element_count(&self) -> (r: u64) {
        1
    }
}

impl<V> Tensor for Tensor1<V> {
    open spec fn spec_count(&self) -> int {
        self.data@.len() as int
    }

    fn rank(&self) -> u16 {
        1
    }

    fn element_count(&self) -> (r: u64) {
        self.data.len() as u64
    }
}

impl<V> Tensor for Tensor2<V> {
    open spec fn spec_count(&self) -> int {
        self.data@.len() as int
    }

    fn rank(&self) -> u16 {
        2
    }

    fn element_count(&self) -> (r: u64) {
        self.data.len() as u64
    }
}

impl<V> Tensor for Tensor3<V> {
    open spec fn spec_count(&self) -> int {
        self.data@.len() as int
    }

    fn rank(&self) -> u16 {
        3
    }

    fn element_count(&self) -> (r: u64) {
        self.data.len() as u64
    }
}

impl<V> Tensor for Tensor4<V> {
    open spec fn spec_count(&self) -> int {
        self.data@.len() as int
    }

    fn rank(&self) -> u16 {
        4
    }

    fn element_count(&self) -> (r: u64) {
        self.data.len() as u64
    }
}

impl<V> Tensor for Tensor5<V> {
    open spec fn spec_count(&self) -> int {
        self.data@.len() as int
    }

    fn rank(&self) -> u16 {
        5
    }

    fn element_count(&self) -> (r: u64) {
        self.data.len() as u64
    }
}

impl<V> Tensor for Tensor6<V> {
    open spec fn spec_count(&self) -> int {
        self.data@.len() as int
    }

    fn rank(&self) -> u16 {
        6
    }

    fn element_count(&self) -> (r: u64) {
        self.data.len() as u64
    }
}

impl<V> Tensor for Tensor7<V> {
    open spec fn spec_count(&self) -> int {
        self.data@.len() as int
    }

    fn rank(&self) -> u16 {
        7
    }

    fn element_count(&self) -> (r: u64) {
        self.data.len() as u64
    }
}

impl<V> Tensor for Tensor8<V> {
    open spec fn spec_count(&self) -> int {
        self.data@.len() as int
    }

    fn rank(&self) -> u16 {
        8
    }

    fn element_count(&self) -> (r: u64) {
        self.data.len() as u64
    }
}

/// A rank-one tensor read from a fixed-size array.
pub fn new_from_array<V: Clone, const N: usize>(array: &[V; N]) -> (r: Tensor1<V>)
    ensures
        r.d.v == N,
        r.d.thumbprint is None,
        r.wf(),
        forall|i: int|
            0 <= i < N ==> vstd::pervasive::cloned::<V>(array@[i], #[trigger] r.data@[i]),
{
    let mut data: Vec<V> = Vec::new();
    let mut i: usize = 0;
    while i < N
        invariant
            i <= N,
            data@.len() == i,
            forall|j: int| 0 <= j < i ==> vstd::pervasive::cloned::<V>(array@[j], #[trigger] data@[j]),
        decreases N - i,
    {
        data.push(array[i].clone());
        i = i + 1;
    }
    Tensor1 { d: Dim { v: N, thumbprint: None }, data }
}

// ---------------------------------------------------------------------
// Row-major index computation
// ---------------------------------------------------------------------
/// Multiplying a bounded index in never leaves the bound: with
/// `i < d` and `j < e`, the combined index `i * e + j` stays below
/// `d * e`.
pub proof fn lemma_linear_bound(i: int, d: int, j: int, e: int)
    requires
        0 <= i < d,
        0 <= j < e,
    ensures
        0 <= i * e + j < d * e,
{
    assert(0 <= i * e + j < d * e) by (nonlinear_arith)
        requires
            0 <= i < d,
            0 <= j < e,
    ;
}

/// The row-major position of `(i1, i2, i3)` in a tensor whose trailing
/// dimensions are `d2` and `d3`.
pub fn make_index_3(i1: usize, i2: usize, i3: usize, d2: usize, d3: usize) -> (r: usize)
    requires
        ((i1 * d2 + i2) * d3 + i3) <= usize::MAX,
        i1 * d2 + i2 <= usize::MAX,
        i1 * d2 <= usize::MAX,
    ensures
        r == (i1 * d2 + i2) * d3 + i3,
{
    (i1 * d2 + i2) * d3 + i3
}

/// The row-major position of `(i1, i2, i3, i4)`.
pub fn make_index_4(
    i1: usize,
    i2: usize,
    i3: usize,
    i4: usize,
    d2: usize,
    d3: usize,
    d4: usize,
) -> (r: usize)
    requires
        ((i1 * d2 + i2) * d3 + i3) * d4 + i4 <= usize::MAX,
        ((i1 * d2 + i2) * d3 + i3) * d4 <= usize::MAX,
        (i1 * d2 + i2) * d3 + i3 <= usize::MAX,
        i1 * d2 + i2 <= usize::MAX,
        i1 * d2 <= usize::MAX,
    ensures
        r == ((i1 * d2 + i2) * d3 + i3) * d4 + i4,
{
    let base = make_index_3(i1, i2, i3, d2, d3);
    base * d4 + i4
}

/// The row-major position of `(i1, ..., i5)`.
pub fn make_index_5(
    i1: usize,
    i2: usize,
    i3: usize,
    i4: usize,
    i5: usize,
    d2: usize,
    d3: usize,
    d4: usize,
    d5: usize,
) -> (r: usize)
    requires
        (((i1 * d2 + i2) * d3 + i3) * d4 + i4) * d5 + i5 <= usize::MAX,
        (((i1 * d2 + i2) * d3 + i3) * d4 + i4) * d5 <= usize::MAX,
        ((i1 * d2 + i2) * d3 + i3) * d4 + i4 <= usize::MAX,
        ((i1 * d2 + i2) * d3 + i3) * d4 <= usize::MAX,
        (i1 * d2 + i2) * d3 + i3 <= usize::MAX,
        i1 * d2 + i2 <= usize::MAX,
        i1 * d2 <= usize::MAX,
    ensures
        r == (((i1 * d2 + i2) * d3 + i3) * d4 + i4) * d5 + i5,
{
    let base = make_index_4(i1, i2, i3, i4, d2, d3, d4);
    base * d5 + i5
}


// ---------------------------------------------------------------------
// Formatting
// ---------------------------------------------------------------------
/// The separator before element `i` of a flattened tensor: deeper
/// axis boundaries print heavier bars.
pub open spec fn spec_sep(i: int, d4: int, d3: int, d2: int) -> Seq<char> {
    if d4 != 0 && i % d4 == 0 {
        " ||| "@
    } else if d3 != 0 && i % d3 == 0 {
        " || "@
    } else if d2 != 0 && i % d2 == 0 {
        " | "@
    } else {
        ", "@
    }
}

pub open spec fn spec_display_from(
    parts: Seq<Seq<char>>,
    i: int,
    d4: int,
    d3: int,
    d2: int,
) -> Seq<char>
    decreases parts.len() - i,
{
    if i < 0 || i >= parts.len() {
        Seq::empty()
    } else {
        (if i == 0 {
            Seq::<char>::empty()
        } else {
            spec_sep(i, d4, d3, d2)
        }) + parts[i] + spec_display_from(parts, i + 1, d4, d3, d2)
    }
}

/// Elements joined with separators that mark axis boundaries.
pub open spec fn spec_display(parts: Seq<Seq<char>>, d4: int, d3: int, d2: int) -> Seq<char> {
    spec_display_from(parts, 0, d4, d3, d2)
}

/// Join already-formatted elements, marking each axis boundary.
pub fn display(parts: &Vec<String>, d4: usize, d3: usize, d2: usize) -> (r: String)
    ensures
        r@ == spec_display(names_view(parts@), d4 as int, d3 as int, d2 as int),
{
    let ghost nv = names_view(parts@);
    let mut result = String::new();
    let mut i: usize = 0;
    proof {
        assert(Seq::<char>::empty() + spec_display_from(nv, 0, d4 as int, d3 as int, d2 as int)
            =~= spec_display_from(nv, 0, d4 as int, d3 as int, d2 as int));
    }
    while i < parts.len()
        invariant
            i <= parts.len(),
            nv == names_view(parts@),
            nv.len() == parts@.len(),
            spec_display(nv, d4 as int, d3 as int, d2 as int) == result@ + spec_display_from(
                nv,
                i as int,
                d4 as int,
                d3 as int,
                d2 as int,
            ),
        decreases parts.len() - i,
    {
        let ghost pre = result@;
        if i > 0 {
            if d4 != 0 && i % d4 == 0 {
                result.append(" ||| ");
            } else if d3 != 0 && i % d3 == 0 {
                result.append(" || ");
            } else if d2 != 0 && i % d2 == 0 {
                result.append(" | ");
            } else {
                result.append(", ");
            }
            proof {
                assert(result@ =~= pre + spec_sep(i as int, d4 as int, d3 as int, d2 as int));
            }
        }
        let ghost mid = result@;
        result.append(parts[i].as_str());
        proof {
            assert(nv[i as int] == parts@[i as int]@);
            if i == 0 {
                assert(result@ =~= pre + (Seq::<char>::empty() + nv[i as int]));
            }
            assert(pre + ((if i == 0 {
                Seq::<char>::empty()
            } else {
                spec_sep(i as int, d4 as int, d3 as int, d2 as int)
            }) + nv[i as int] + spec_display_from(
                nv,
                i as int + 1,
                d4 as int,
                d3 as int,
                d2 as int,
            )) =~= result@ + spec_display_from(nv, i as int + 1, d4 as int, d3 as int, d2 as int));
        }
        i = i + 1;
    }
    proof {
        assert(spec_display_from(nv, i as int, d4 as int, d3 as int, d2 as int) =~= Seq::<
            char,
        >::empty());
        assert(result@ + Seq::<char>::empty() =~= result@);
    }
    result
}

/// The flattened elements with their closing bracket: all of them, or
/// the first ten followed by an ellipsis.
pub open spec fn spec_fmt_tensor(
    d4: int,
    d3: int,
    d2: int,
    parts: Seq<Seq<char>>,
    show_all: bool,
) -> Seq<char> {
    if show_all || parts.len() <= 10 {
        spec_display(parts, d4, d3, d2) + "]"@
    } else {
        spec_display(parts.take(10), d4, d3, d2) + ", \u{2026}]"@
    }
}

/// Join formatted elements and close the bracket, truncating to ten
/// elements unless everything was asked for.
pub fn fmt_tensor(
    d4: usize,
    d3: usize,
    d2: usize,
    parts: &Vec<String>,
    show_all: bool,
) -> (r: String)
    ensures
        r@ == spec_fmt_tensor(d4 as int, d3 as int, d2 as int, names_view(parts@), show_all),
{
    if show_all || parts.len() <= 10 {
        let mut s = display(parts, d4, d3, d2);
        s.append("]");
        s
    } else {
        let mut first: Vec<String> = Vec::new();
        let mut i: usize = 0;
        while i < 10
            invariant
                i <= 10,
                parts@.len() > 10,
                first@.len() == i,
                forall|j: int| 0 <= j < i ==> first@[j]@ == parts@[j]@,
            decreases 10 - i,
        {
            first.push(parts[i].clone());
            i = i + 1;
        }
        proof {
            assert(names_view(first@) =~= names_view(parts@).take(10));
        }
        let mut s = display(&first, d4, d3, d2);
        s.append(", \u{2026}]");
        s
    }
}

/// `parts` is a possible result of formatting each element of
/// `data` with `f`.
pub open spec fn formatted_with<V, F: Fn(V) -> String>(
    f: F,
    data: Seq<V>,
    parts: Seq<String>,
) -> bool {
    parts.len() == data.len() && forall|i: int|
        0 <= i < data.len() ==> call_ensures(f, (data[i],), #[trigger] parts[i])
}

/// The text of a rank-one tensor, given its formatted elements.
pub open spec fn spec_tensor1_show(d: Dim, parts: Seq<Seq<char>>, show_all: bool) -> Seq<char> {
    "\u{3008}"@ + spec_dim_show(d) + "\u{3009}["@ + spec_fmt_tensor(0, 0, 0, parts, show_all)
}

/// The text of a rank-two tensor, given its formatted elements.
pub open spec fn spec_tensor2_show(
    d1: Dim,
    d2: Dim,
    parts: Seq<Seq<char>>,
    show_all: bool,
) -> Seq<char> {
    "\u{3008}"@ + spec_dim_show(d1) + ", "@ + spec_dim_show(d2) + "\u{3009}["@ + spec_fmt_tensor(
        0,
        0,
        d2.v as int,
        parts,
        show_all,
    )
}

/// The text of a rank-three tensor, given its formatted elements.
pub open spec fn spec_tensor3_show(
    d1: Dim,
    d2: Dim,
    d3: Dim,
    parts: Seq<Seq<char>>,
    show_all: bool,
) -> Seq<char> {
    "\u{3008}"@ + spec_dim_show(d1) + ", "@ + spec_dim_show(d2) + ", "@ + spec_dim_show(d3)
        + "\u{3009}["@ + spec_fmt_tensor(0, d3.v as int * d2.v as int, d2.v as int, parts, show_all)
}

impl<V> Tensor1<V> {
    /// The tensor's text, given its formatted elements.
    pub fn show_parts(&self, parts: &Vec<String>, show_all: bool) -> (r: String)
        ensures
            r@ == spec_tensor1_show(self.d, names_view(parts@), show_all),
    {
        let mut s = String::from_str("\u{3008}");
        let d = self.d.show();
        s.append(d.as_str());
        s.append("\u{3009}[");
        let body = fmt_tensor(0, 0, 0, parts, show_all);
        s.append(body.as_str());
        s
    }

    /// The tensor's text, formatting each element with `f`.
    pub fn show_with<F: Fn(V) -> String>(&self, f: F, show_all: bool) -> (r: String) where
        V: Copy,

        requires
            forall|i: int| 0 <= i < self.data@.len() ==> call_requires(f, (self.data@[i],)),
        ensures
            exists|parts: Seq<String>|
                #[trigger] formatted_with(f, self.data@, parts) && r@ == spec_tensor1_show(self.d, names_view(parts), show_all),
    {
        let ghost gf = f;
        let parts = format_parts(&self.data, f);
        let r = self.show_parts(&parts, show_all);
        proof {
            assert(formatted_with(gf, self.data@, parts@));
            assert(r@ == spec_tensor1_show(self.d, names_view(parts@), show_all));
        }
        r
    }
}

impl<V> Tensor2<V> {
    /// The tensor's text, given its formatted elements.
    pub fn show_parts(&self, parts: &Vec<String>, show_all: bool) -> (r: String)
        ensures
            r@ == spec_tensor2_show(self.d1, self.d2, names_view(parts@), show_all),
    {
        let mut s = String::from_str("\u{3008}");
        let d1 = self.d1.show();
        s.append(d1.as_str());
        s.append(", ");
        let d2 = self.d2.show();
        s.append(d2.as_str());
        s.append("\u{3009}[");
        let body = fmt_tensor(0, 0, self.d2.as_usize(), parts, show_all);
        s.append(body.as_str());
        s
    }

    /// The tensor's text, formatting each element with `f`.
    pub fn show_with<F: Fn(V) -> String>(&self, f: F, show_all: bool) -> (r: String) where
        V: Copy,

        requires
            forall|i: int| 0 <= i < self.data@.len() ==> call_requires(f, (self.data@[i],)),
        ensures
            exists|parts: Seq<String>|
                #[trigger] formatted_with(f, self.data@, parts) && r@ == spec_tensor2_show(self.d1, self.d2, names_view(parts), show_all),
    {
        let ghost gf = f;
        let parts = format_parts(&self.data, f);
        let r = self.show_parts(&parts, show_all);
        proof {
            assert(formatted_with(gf, self.data@, parts@));
            assert(r@ == spec_tensor2_show(self.d1, self.d2, names_view(parts@), show_all));
        }
        r
    }
}

impl<V> Tensor3<V> {
    /// The tensor's text, given its formatted elements.
    pub fn show_parts(&self, parts: &Vec<String>, show_all: bool) -> (r: String)
        requires
            self.d3.v * self.d2.v <= usize::MAX,
        ensures
            r@ == spec_tensor3_show(self.d1, self.d2, self.d3, names_view(parts@), show_all),
    {
        let mut s = String::from_str("\u{3008}");
        let d1 = self.d1.show();
        s.append(d1.as_str());
        s.append(", ");
        let d2 = self.d2.show();
        s.append(d2.as_str());
        s.append(", ");
        let d3 = self.d3.show();
        s.append(d3.as_str());
        s.append("\u{3009}[");
        let body = fmt_tensor(
            0,
            self.d3.as_usize() * self.d2.as_usize(),
            self.d2.as_usize(),
            parts,
            show_all,
        );
        s.append(body.as_str());
        s
    }

    /// The tensor's text, formatting each element with `f`.
    pub fn show_with<F: Fn(V) -> String>(&self, f: F, show_all: bool) -> (r: String) where
        V: Copy,

        requires
            self.d3.v * self.d2.v <= usize::MAX,
            forall|i: int| 0 <= i < self.data@.len() ==> call_requires(f, (self.data@[i],)),
        ensures
            exists|parts: Seq<String>|
                #[trigger] formatted_with(f, self.data@, parts) && r@ == spec_tensor3_show(self.d1, self.d2, self.d3, names_view(parts), show_all),
    {
        let ghost gf = f;
        let parts = format_parts(&self.data, f);
        let r = self.show_parts(&parts, show_all);
        proof {
            assert(formatted_with(gf, self.data@, parts@));
            assert(r@ == spec_tensor3_show(self.d1, self.d2, self.d3, names_view(parts@), show_all));
        }
        r
    }
}

/// Format every element of a flat data vector.
fn format_parts<V: Copy, F: Fn(V) -> String>(data: &Vec<V>, f: F) -> (r: Vec<String>)
    requires
        forall|i: int| 0 <= i < data@.len() ==> call_requires(f, (data@[i],)),
    ensures
        r@.len() == data@.len(),
        formatted_with(f, data@, r@),
{
    let mut parts: Vec<String> = Vec::new();
    let mut i: usize = 0;
    while i < data.len()
        invariant
            i <= data.len(),
            parts@.len() == i,
            forall|j: int| 0 <= j < data@.len() ==> call_requires(f, (data@[j],)),
            forall|j: int| 0 <= j < i ==> call_ensures(f, (data@[j],), #[trigger] parts@[j]),
        decreases data.len() - i,
    {
        let st = f(data[i]);
        parts.push(st);
        i = i + 1;
    }
    parts
}

} // verus!
