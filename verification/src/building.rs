//! Building tensors from shapes: filling with one value, defining by
//! a function over multi-indices, or assembling element by element.
//!
//! Elements are laid out in row-major order: the first index varies
//! slowest, the last fastest, and every multi-index is visited exactly
//! once.

use vstd::prelude::*;

use vstd::arithmetic::div_mod::lemma_fundamental_div_mod_converse;

use crate::shapes::{Tensor1Shape, Tensor2Shape, Tensor3Shape};
use crate::tensors::{Tensor1, Tensor2, Tensor3, lemma_linear_bound};

verus! {

/// A tensor under construction: its shape, the element count it must
/// reach, and the elements set so far.
pub struct TensorPreparation<S, V> {
    pub shape: S,
    pub expected_size: usize,
    pub data: Vec<V>,
}

impl<S, V> TensorPreparation<S, V> {
    /// No more elements are set than the tensor will hold.
    pub open spec fn wf(&self) -> bool {
        self.data@.len() <= self.expected_size
    }

    /// How many elements are set already.
    pub fn count_set_elements(&self) -> (r: usize)
        ensures
            r == self.data@.len(),
    {
        self.data.len()
    }

    /// How many elements are still missing.
    pub fn count_unset_elements(&self) -> (r: usize)
        requires
            self.wf(),
        ensures
            r == self.expected_size - self.data@.len(),
    {
        self.expected_size - self.data.len()
    }

    /// Move the elements of `values` in, dropping whatever exceeds the
    /// expected count; `values` is left empty.
    pub fn append_vec(self, values: &mut Vec<V>) -> (r: Self)
        ensures
            r.shape == self.shape,
            r.expected_size == self.expected_size,
            r.data@ == if self.data@.len() + old(values)@.len() <= self.expected_size {
                self.data@ + old(values)@
            } else {
                (self.data@ + old(values)@).take(self.expected_size as int)
            },
            final(values)@.len() == 0,
    {
        let mut data = self.data;
        data.append(values);
        data.truncate(self.expected_size);
        TensorPreparation { shape: self.shape, expected_size: self.expected_size, data }
    }

    /// Copy the elements of an array in, dropping whatever exceeds the
    /// expected count.
    pub fn append_array<const N: usize>(self, values: &[V; N]) -> (r: Self) where V: Clone
        requires
            self.wf(),
        ensures
            r.shape == self.shape,
            r.expected_size == self.expected_size,
            r.wf(),
            r.data@.len() == vstd::math::min(self.data@.len() + N, self.expected_size as int),
            forall|i: int| 0 <= i < self.data@.len() ==> r.data@[i] == self.data@[i],
            forall|i: int|
                self.data@.len() <= i < r.data@.len() ==> vstd::pervasive::cloned::<V>(
                    values@[i - self.data@.len()],
                    #[trigger] r.data@[i],
                ),
    {
        let ghost base = self.data@;
        let mut data = self.data;
        let mut k: usize = 0;
        while k < N && data.len() < self.expected_size
            invariant
                k <= N,
                base.len() <= data@.len() <= self.expected_size,
                data@.len() == vstd::math::min(base.len() + k, self.expected_size as int),
                forall|i: int| 0 <= i < base.len() ==> data@[i] == base[i],
                forall|i: int|
                    base.len() <= i < data@.len() ==> vstd::pervasive::cloned::<V>(
                        values@[i - base.len()],
                        #[trigger] data@[i],
                    ),
            decreases N - k,
        {
            data.push(values[k].clone());
            k = k + 1;
        }
        TensorPreparation { shape: self.shape, expected_size: self.expected_size, data }
    }

    /// Append up to `additional_count` copies of `value`, never beyond
    /// the expected count.
    pub fn fill_during(self, value: &V, additional_count: usize) -> (r: Self) where V: Clone
        requires
            self.wf(),
        ensures
            r.shape == self.shape,
            r.expected_size == self.expected_size,
            r.wf(),
            r.data@.len() == vstd::math::min(
                self.data@.len() + additional_count,
                self.expected_size as int,
            ),
            forall|i: int| 0 <= i < self.data@.len() ==> r.data@[i] == self.data@[i],
            forall|i: int|
                self.data@.len() <= i < r.data@.len() ==> vstd::pervasive::cloned::<V>(
                    *value,
                    #[trigger] r.data@[i],
                ),
    {
        let ghost base = self.data@;
        let mut data = self.data;
        let mut k: usize = 0;
        while k < additional_count && data.len() < self.expected_size
            invariant
                k <= additional_count,
                base.len() <= data@.len() <= self.expected_size,
                data@.len() == vstd::math::min(base.len() + k, self.expected_size as int),
                forall|i: int| 0 <= i < base.len() ==> data@[i] == base[i],
                forall|i: int|
                    base.len() <= i < data@.len() ==> vstd::pervasive::cloned::<V>(
                        *value,
                        #[trigger] data@[i],
                    ),
            decreases additional_count - k,
        {
            data.push(value.clone());
            k = k + 1;
        }
        TensorPreparation { shape: self.shape, expected_size: self.expected_size, data }
    }
}

impl<V> TensorPreparation<Tensor1Shape, V> {
    /// Finish the tensor; every element must be set.
    pub fn generate(self) -> (r: Tensor1<V>)
        requires
            self.shape.wf(),
            self.expected_size == self.shape.size,
            self.data@.len() == self.expected_size,
        ensures
            r.d == self.shape.d,
            r.wf(),
            r.data == self.data,
    {
        Tensor1 { d: self.shape.d, data: self.data }
    }

    /// Finish the tensor, or hand the preparation back when elements
    /// are still missing.
    pub fn try_generate(self) -> (r: Result<Tensor1<V>, Self>)
        requires
            self.shape.wf(),
            self.expected_size == self.shape.size,
        ensures
            self.data@.len() == self.expected_size ==> (r matches Ok(t) && t.d == self.shape.d
                && t.data == self.data && t.wf()),
            self.data@.len() != self.expected_size ==> r == Err::<Tensor1<V>, Self>(self),
    {
        if self.data.len() == self.expected_size {
            Ok(Tensor1 { d: self.shape.d, data: self.data })
        } else {
            Err(self)
        }
    }

    /// Set every missing element to a copy of `value` and finish.
    pub fn fill(self, value: &V) -> (r: Tensor1<V>) where V: Clone
        requires
            self.wf(),
            self.shape.wf(),
            self.expected_size == self.shape.size,
        ensures
            r.d == self.shape.d,
            r.wf(),
            forall|i: int| 0 <= i < self.data@.len() ==> r.data@[i] == self.data@[i],
            forall|i: int|
                self.data@.len() <= i < r.data@.len() ==> vstd::pervasive::cloned::<V>(
                    *value,
                    #[trigger] r.data@[i],
                ),
    {
        let n = self.expected_size;
        self.fill_during(value, n).generate()
    }
}

impl<V> TensorPreparation<Tensor2Shape, V> {
    /// Finish the tensor; every element must be set.
    pub fn generate(self) -> (r: Tensor2<V>)
        requires
            self.shape.wf(),
            self.expected_size == self.shape.size,
            self.data@.len() == self.expected_size,
        ensures
            r.d1 == self.shape.d1,
            r.d2 == self.shape.d2,
            r.wf(),
            r.data == self.data,
    {
        Tensor2 { d1: self.shape.d1, d2: self.shape.d2, data: self.data }
    }

    /// Finish the tensor, or hand the preparation back when elements
    /// are still missing.
    pub fn try_generate(self) -> (r: Result<Tensor2<V>, Self>)
        requires
            self.shape.wf(),
            self.expected_size == self.shape.size,
        ensures
            self.data@.len() == self.expected_size ==> (r matches Ok(t) && t.d1 == self.shape.d1
                && t.d2 == self.shape.d2 && t.data == self.data && t.wf()),
            self.data@.len() != self.expected_size ==> r == Err::<Tensor2<V>, Self>(self),
    {
        if self.data.len() == self.expected_size {
            Ok(Tensor2 { d1: self.shape.d1, d2: self.shape.d2, data: self.data })
        } else {
            Err(self)
        }
    }

    /// Set every missing element to a copy of `value` and finish.
    pub fn fill(self, value: &V) -> (r: Tensor2<V>) where V: Clone
        requires
            self.wf(),
            self.shape.wf(),
            self.expected_size == self.shape.size,
        ensures
            r.d1 == self.shape.d1,
            r.d2 == self.shape.d2,
            r.wf(),
            forall|i: int| 0 <= i < self.data@.len() ==> r.data@[i] == self.data@[i],
            forall|i: int|
                self.data@.len() <= i < r.data@.len() ==> vstd::pervasive::cloned::<V>(
                    *value,
                    #[trigger] r.data@[i],
                ),
    {
        let n = self.expected_size;
        self.fill_during(value, n).generate()
    }
}

impl<V> TensorPreparation<Tensor3Shape, V> {
    /// Finish the tensor; every element must be set.
    pub fn generate(self) -> (r: Tensor3<V>)
        requires
            self.shape.wf(),
            self.expected_size == self.shape.size,
            self.data@.len() == self.expected_size,
        ensures
            r.d1 == self.shape.d1,
            r.d2 == self.shape.d2,
            r.d3 == self.shape.d3,
            r.wf(),
            r.data == self.data,
    {
        Tensor3 { d1: self.shape.d1, d2: self.shape.d2, d3: self.shape.d3, data: self.data }
    }

    /// Finish the tensor, or hand the preparation back when elements
    /// are still missing.
    pub fn try_generate(self) -> (r: Result<Tensor3<V>, Self>)
        requires
            self.shape.wf(),
            self.expected_size == self.shape.size,
        ensures
            self.data@.len() == self.expected_size ==> (r matches Ok(t) && t.d1 == self.shape.d1
                && t.d2 == self.shape.d2 && t.d3 == self.shape.d3 && t.data == self.data
                && t.wf()),
            self.data@.len() != self.expected_size ==> r == Err::<Tensor3<V>, Self>(self),
    {
        if self.data.len() == self.expected_size {
            Ok(Tensor3 { d1: self.shape.d1, d2: self.shape.d2, d3: self.shape.d3, data: self.data })
        } else {
            Err(self)
        }
    }

    /// Set every missing element to a copy of `value` and finish.
    pub fn fill(self, value: &V) -> (r: Tensor3<V>) where V: Clone
        requires
            self.wf(),
            self.shape.wf(),
            self.expected_size == self.shape.size,
        ensures
            r.d1 == self.shape.d1,
            r.d2 == self.shape.d2,
            r.d3 == self.shape.d3,
            r.wf(),
            forall|i: int| 0 <= i < self.data@.len() ==> r.data@[i] == self.data@[i],
            forall|i: int|
                self.data@.len() <= i < r.data@.len() ==> vstd::pervasive::cloned::<V>(
                    *value,
                    #[trigger] r.data@[i],
                ),
    {
        let n = self.expected_size;
        self.fill_during(value, n).generate()
    }
}

// ---------------------------------------------------------------------
// Builders on shapes
// ---------------------------------------------------------------------
impl Tensor1Shape {
    /// A tensor of this shape holding copies of one value.
    pub fn fill<V: Clone>(&self, value: &V) -> (r: Tensor1<V>)
        requires
            self.wf(),
        ensures
            r.d == self.d,
            r.wf(),
            forall|i: int|
                0 <= i < r.data@.len() ==> vstd::pervasive::cloned::<V>(
                    *value,
                    #[trigger] r.data@[i],
                ),
    {
        let mut data: Vec<V> = Vec::new();
        let mut i: usize = 0;
        while i < self.size
            invariant
                i <= self.size,
                data@.len() == i,
                forall|j: int|
                    0 <= j < i ==> vstd::pervasive::cloned::<V>(*value, #[trigger] data@[j]),
            decreases self.size - i,
        {
            data.push(value.clone());
            i = i + 1;
        }
        Tensor1 { d: self.d, data }
    }

    /// A tensor of this shape whose element at `(i,)` is `f((i,))`.
    /// Indices are visited in increasing order, each exactly once.
    pub fn define<V, F: Fn((usize,)) -> V>(&self, f: F) -> (r: Tensor1<V>)
        requires
            self.wf(),
            forall|t: (usize,)| t.0 < self.d.v ==> #[trigger] call_requires(f, (t,)),
        ensures
            r.d == self.d,
            r.wf(),
            forall|k: int|
                0 <= k < r.data@.len() ==> call_ensures(f, ((k as usize,),), #[trigger] r.data@[k]),
    {
        let mut data: Vec<V> = Vec::new();
        let mut i: usize = 0;
        while i < self.d.as_usize()
            invariant
                i <= self.d.v,
                self.wf(),
                forall|t: (usize,)| t.0 < self.d.v ==> #[trigger] call_requires(f, (t,)),
                data@.len() == i,
                forall|k: int|
                    0 <= k < i ==> call_ensures(f, ((k as usize,),), #[trigger] data@[k]),
            decreases self.d.v - i,
        {
            let v = f((i,));
            data.push(v);
            i = i + 1;
        }
        Tensor1 { d: self.d, data }
    }

    /// Start assembling a tensor of this shape element by element.
    pub fn prepare<V>(&self) -> (r: TensorPreparation<Tensor1Shape, V>)
        requires
            self.wf(),
        ensures
            r.shape == *self,
            r.expected_size == self.size,
            r.data@.len() == 0,
            r.wf(),
    {
        TensorPreparation { shape: *self, expected_size: self.size, data: Vec::new() }
    }
}

impl Tensor2Shape {
    /// A tensor of this shape holding copies of one value.
    pub fn fill<V: Clone>(&self, value: &V) -> (r: Tensor2<V>)
        requires
            self.wf(),
        ensures
            r.d1 == self.d1,
            r.d2 == self.d2,
            r.wf(),
            forall|i: int|
                0 <= i < r.data@.len() ==> vstd::pervasive::cloned::<V>(
                    *value,
                    #[trigger] r.data@[i],
                ),
    {
        let mut data: Vec<V> = Vec::new();
        let mut i: usize = 0;
        while i < self.size
            invariant
                i <= self.size,
                data@.len() == i,
                forall|j: int|
                    0 <= j < i ==> vstd::pervasive::cloned::<V>(*value, #[trigger] data@[j]),
            decreases self.size - i,
        {
            data.push(value.clone());
            i = i + 1;
        }
        Tensor2 { d1: self.d1, d2: self.d2, data }
    }

    /// A tensor of this shape whose element at row-major position `k`
    /// is `f((k / d2, k % d2))`: every multi-index `(i1, i2)` with
    /// `i1 < d1` and `i2 < d2` is visited exactly once, in
    /// lexicographic order with the first index slowest.
    pub fn define<V, F: Fn((usize, usize)) -> V>(&self, f: F) -> (r: Tensor2<V>)
        requires
            self.wf(),
            forall|t: (usize, usize)|
                t.0 < self.d1.v && t.1 < self.d2.v ==> #[trigger] call_requires(f, (t,)),
        ensures
            r.d1 == self.d1,
            r.d2 == self.d2,
            r.wf(),
            forall|k: int|
                0 <= k < r.data@.len() ==> call_ensures(
                    f,
                    (((k / self.d2.v as int) as usize, (k % self.d2.v as int) as usize),),
                    #[trigger] r.data@[k],
                ),
    {
        let mut data: Vec<V> = Vec::new();
        let mut i1: usize = 0;
        while i1 < self.d1.as_usize()
            invariant
                i1 <= self.d1.v,
                self.wf(),
                forall|t: (usize, usize)|
                    t.0 < self.d1.v && t.1 < self.d2.v ==> #[trigger] call_requires(f, (t,)),
                data@.len() == i1 * self.d2.v,
                data@.len() <= self.size,
                forall|k: int|
                    0 <= k < data@.len() ==> call_ensures(
                        f,
                        (((k / self.d2.v as int) as usize, (k % self.d2.v as int) as usize),),
                        #[trigger] data@[k],
                    ),
            decreases self.d1.v - i1,
        {
            let mut i2: usize = 0;
            while i2 < self.d2.as_usize()
                invariant
                    i1 < self.d1.v,
                    i2 <= self.d2.v,
                    self.wf(),
                    forall|t: (usize, usize)|
                        t.0 < self.d1.v && t.1 < self.d2.v ==> #[trigger] call_requires(f, (t,)),
                        data@.len() == i1 * self.d2.v + i2,
                    data@.len() <= self.size,
                    forall|k: int|
                        0 <= k < data@.len() ==> call_ensures(
                            f,
                            (((k / self.d2.v as int) as usize, (k % self.d2.v as int) as usize),),
                            #[trigger] data@[k],
                        ),
                decreases self.d2.v - i2,
            {
                proof {
                    lemma_linear_bound(i1 as int, self.d1.v as int, i2 as int, self.d2.v as int);
                    lemma_fundamental_div_mod_converse(
                        i1 as int * self.d2.v as int + i2 as int,
                        self.d2.v as int,
                        i1 as int,
                        i2 as int,
                    );
                }
                let v = f((i1, i2));
                data.push(v);
                i2 = i2 + 1;
            }
            proof {
                assert(i1 * self.d2.v + self.d2.v == (i1 + 1) * self.d2.v) by (nonlinear_arith);
                assert((i1 + 1) * self.d2.v <= self.d1.v * self.d2.v) by (nonlinear_arith)
                    requires
                        i1 + 1 <= self.d1.v,
                ;
            }
            i1 = i1 + 1;
        }
        proof {
            assert(data@.len() == self.d1.v * self.d2.v);
        }
        Tensor2 { d1: self.d1, d2: self.d2, data }
    }

    /// Start assembling a tensor of this shape element by element.
    pub fn prepare<V>(&self) -> (r: TensorPreparation<Tensor2Shape, V>)
        requires
            self.wf(),
        ensures
            r.shape == *self,
            r.expected_size == self.size,
            r.data@.len() == 0,
            r.wf(),
    {
        TensorPreparation { shape: *self, expected_size: self.size, data: Vec::new() }
    }
}

impl Tensor3Shape {
    /// A tensor of this shape holding copies of one value.
    pub fn fill<V: Clone>(&self, value: &V) -> (r: Tensor3<V>)
        requires
            self.wf(),
        ensures
            r.d1 == self.d1,
            r.d2 == self.d2,
            r.d3 == self.d3,
            r.wf(),
            forall|i: int|
                0 <= i < r.data@.len() ==> vstd::pervasive::cloned::<V>(
                    *value,
                    #[trigger] r.data@[i],
                ),
    {
        let mut data: Vec<V> = Vec::new();
        let mut i: usize = 0;
        while i < self.size
            invariant
                i <= self.size,
                data@.len() == i,
                forall|j: int|
                    0 <= j < i ==> vstd::pervasive::cloned::<V>(*value, #[trigger] data@[j]),
            decreases self.size - i,
        {
            data.push(value.clone());
            i = i + 1;
        }
        Tensor3 { d1: self.d1, d2: self.d2, d3: self.d3, data }
    }

    /// A tensor of this shape whose element at row-major position `k`
    /// is `f` of the multi-index that `k` decomposes into: every
    /// multi-index is visited exactly once, in lexicographic order
    /// with the first index slowest.
    pub fn define<V, F: Fn((usize, usize, usize)) -> V>(&self, f: F) -> (r: Tensor3<V>)
        requires
            self.wf(),
            forall|t: (usize, usize, usize)|
                t.0 < self.d1.v && t.1 < self.d2.v && t.2 < self.d3.v ==> #[trigger] call_requires(f, (t,)),
        ensures
            r.d1 == self.d1,
            r.d2 == self.d2,
            r.d3 == self.d3,
            r.wf(),
            forall|k: int|
                0 <= k < r.data@.len() ==> call_ensures(
                    f,
                    ((
                        ((k / self.d3.v as int) / self.d2.v as int) as usize,
                        ((k / self.d3.v as int) % self.d2.v as int) as usize,
                        (k % self.d3.v as int) as usize,
                    ),),
                    #[trigger] r.data@[k],
                ),
    {
        let mut data: Vec<V> = Vec::new();
        let mut i1: usize = 0;
        proof {
            assert((0 * self.d2.v as int) * self.d3.v as int == 0) by (nonlinear_arith);
        }
        while i1 < self.d1.as_usize()
            invariant
                i1 <= self.d1.v,
                self.wf(),
                forall|t: (usize, usize, usize)|
                    t.0 < self.d1.v && t.1 < self.d2.v && t.2 < self.d3.v ==> #[trigger] call_requires(
                        f,
                        (t,),
                    ),
                data@.len() == (i1 * self.d2.v) * self.d3.v,
                data@.len() <= self.size,
                forall|k: int|
                    0 <= k < data@.len() ==> call_ensures(
                        f,
                        ((
                            ((k / self.d3.v as int) / self.d2.v as int) as usize,
                            ((k / self.d3.v as int) % self.d2.v as int) as usize,
                            (k % self.d3.v as int) as usize,
                        ),),
                        #[trigger] data@[k],
                    ),
            decreases self.d1.v - i1,
        {
            let mut i2: usize = 0;
            while i2 < self.d2.as_usize()
                invariant
                    i1 < self.d1.v,
                    i2 <= self.d2.v,
                    self.wf(),
                    forall|t: (usize, usize, usize)|
                        t.0 < self.d1.v && t.1 < self.d2.v && t.2 < self.d3.v ==> #[trigger] call_requires(
                            f,
                            (t,),
                        ),
                        data@.len() == (i1 * self.d2.v + i2) * self.d3.v,
                    data@.len() <= self.size,
                    forall|k: int|
                        0 <= k < data@.len() ==> call_ensures(
                            f,
                            ((
                                ((k / self.d3.v as int) / self.d2.v as int) as usize,
                                ((k / self.d3.v as int) % self.d2.v as int) as usize,
                                (k % self.d3.v as int) as usize,
                            ),),
                            #[trigger] data@[k],
                        ),
                decreases self.d2.v - i2,
            {
                let mut i3: usize = 0;
                while i3 < self.d3.as_usize()
                    invariant
                        i1 < self.d1.v,
                        i2 < self.d2.v,
                        i3 <= self.d3.v,
                        self.wf(),
                        forall|t: (usize, usize, usize)|
                            t.0 < self.d1.v && t.1 < self.d2.v && t.2 < self.d3.v ==> #[trigger] call_requires(
                                f,
                                (t,),
                            ),
                        data@.len() == (i1 * self.d2.v + i2) * self.d3.v + i3,
                        data@.len() <= self.size,
                        forall|k: int|
                            0 <= k < data@.len() ==> call_ensures(
                                f,
                                ((
                                    ((k / self.d3.v as int) / self.d2.v as int) as usize,
                                    ((k / self.d3.v as int) % self.d2.v as int) as usize,
                                    (k % self.d3.v as int) as usize,
                                ),),
                                #[trigger] data@[k],
                            ),
                    decreases self.d3.v - i3,
                {
                    proof {
                        lemma_linear_bound(
                            i1 as int,
                            self.d1.v as int,
                            i2 as int,
                            self.d2.v as int,
                        );
                        lemma_linear_bound(
                            i1 as int * self.d2.v as int + i2 as int,
                            self.d1.v as int * self.d2.v as int,
                            i3 as int,
                            self.d3.v as int,
                        );
                        lemma_fundamental_div_mod_converse(
                            (i1 as int * self.d2.v as int + i2 as int) * self.d3.v as int
                                + i3 as int,
                            self.d3.v as int,
                            i1 as int * self.d2.v as int + i2 as int,
                            i3 as int,
                        );
                        lemma_fundamental_div_mod_converse(
                            i1 as int * self.d2.v as int + i2 as int,
                            self.d2.v as int,
                            i1 as int,
                            i2 as int,
                        );
                        assert((self.d1.v * self.d2.v) * self.d3.v == self.size);
                    }
                    let v = f((i1, i2, i3));
                    data.push(v);
                    i3 = i3 + 1;
                }
                proof {
                    assert((i1 * self.d2.v + i2) * self.d3.v + self.d3.v == (i1 * self.d2.v + i2
                        + 1) * self.d3.v) by (nonlinear_arith);
                }
                i2 = i2 + 1;
            }
            proof {
                assert((i1 * self.d2.v + self.d2.v) * self.d3.v == ((i1 + 1) * self.d2.v)
                    * self.d3.v) by (nonlinear_arith);
                assert(((i1 + 1) * self.d2.v) * self.d3.v <= (self.d1.v * self.d2.v) * self.d3.v)
                    by (nonlinear_arith)
                    requires
                        i1 + 1 <= self.d1.v,
                ;
            }
            i1 = i1 + 1;
        }
        proof {
            assert(data@.len() == (self.d1.v * self.d2.v) * self.d3.v);
        }
        Tensor3 { d1: self.d1, d2: self.d2, d3: self.d3, data }
    }

    /// Start assembling a tensor of this shape element by element.
    pub fn prepare<V>(&self) -> (r: TensorPreparation<Tensor3Shape, V>)
        requires
            self.wf(),
        ensures
            r.shape == *self,
            r.expected_size == self.size,
            r.data@.len() == 0,
            r.wf(),
    {
        TensorPreparation { shape: *self, expected_size: self.size, data: Vec::new() }
    }
}

/// Law: the row-major layout covers every multi-index exactly once.
/// For a rank-two shape with dimensions `d1` and `d2`, the map
/// `(i1, i2) -> i1 * d2 + i2` sends each multi-index with `i1 < d1`,
/// `i2 < d2` to a distinct position below `d1 * d2`, and dividing the
/// position by `d2` recovers the multi-index.  Together with the
/// contract of `define`, the element stored at that position is the
/// one the generator produced for `(i1, i2)`.
pub proof fn lemma_row_major_coverage(d1: int, d2: int, i1: int, i2: int)
    requires
        0 <= i1 < d1,
        0 <= i2 < d2,
    ensures
        0 <= i1 * d2 + i2 < d1 * d2,
        (i1 * d2 + i2) / d2 == i1,
        (i1 * d2 + i2) % d2 == i2,
{
    lemma_linear_bound(i1, d1, i2, d2);
    lemma_fundamental_div_mod_converse(i1 * d2 + i2, d2, i1, i2);
}

/// Law: the rank-three row-major layout covers every multi-index
/// exactly once, in lexicographic order with the first index slowest;
/// decomposing a position recovers the unique multi-index it stands
/// for.
pub proof fn lemma_row_major_coverage3(
    d1: int,
    d2: int,
    d3: int,
    i1: int,
    i2: int,
    i3: int,
)
    requires
        0 <= i1 < d1,
        0 <= i2 < d2,
        0 <= i3 < d3,
    ensures
        0 <= (i1 * d2 + i2) * d3 + i3 < (d1 * d2) * d3,
        ((i1 * d2 + i2) * d3 + i3) / d3 == i1 * d2 + i2,
        ((i1 * d2 + i2) * d3 + i3) % d3 == i3,
        (i1 * d2 + i2) / d2 == i1,
        (i1 * d2 + i2) % d2 == i2,
{
    lemma_linear_bound(i1, d1, i2, d2);
    lemma_linear_bound(i1 * d2 + i2, d1 * d2, i3, d3);
    lemma_fundamental_div_mod_converse((i1 * d2 + i2) * d3 + i3, d3, i1 * d2 + i2, i3);
    lemma_fundamental_div_mod_converse(i1 * d2 + i2, d2, i1, i2);
}

} // verus!
