//! Shapes: ordered tuples of dimensions with their total element
//! count, built one dimension at a time.
//!
//! A shape's `size` always equals the product of its dimension sizes;
//! every builder method states and preserves that invariant.

use vstd::prelude::*;

use crate::dimensions::{Dim, spec_dim_show};
use crate::tensors::Tensor1;

verus! {

/// What every shape offers: its rank and its total element count.
pub trait Shape: Sized {
    /// The element count the shape stands for.
    spec fn spec_size(&self) -> usize;

    /// The shape's element count matches its dimensions.
    spec fn shape_wf(&self) -> bool;

    /// The number of dimensions.
    fn rank(&self) -> u16;

    /// The total number of coordinates.
    fn count(&self) -> (r: usize)
        requires
            self.shape_wf(),
        ensures
            r == self.spec_size(),
    ;
}

/// A shape of rank 1.
#[derive(Clone, Copy, Debug)]
pub struct Tensor1Shape {
    pub d: Dim,
    pub size: usize,
}

/// A shape of rank 2.
#[derive(Clone, Copy, Debug)]
pub struct Tensor2Shape {
    pub d1: Dim,
    pub d2: Dim,
    pub size: usize,
}

/// A shape of rank 3.
#[derive(Clone, Copy, Debug)]
pub struct Tensor3Shape {
    pub d1: Dim,
    pub d2: Dim,
    pub d3: Dim,
    pub size: usize,
}

/// A shape of rank 4.
#[derive(Clone, Copy, Debug)]
pub struct Tensor4Shape {
    pub d1: Dim,
    pub d2: Dim,
    pub d3: Dim,
    pub d4: Dim,
    pub size: usize,
}

/// A shape of rank 5.
#[derive(Clone, Copy, Debug)]
pub struct Tensor5Shape {
    pub d1: Dim,
    pub d2: Dim,
    pub d3: Dim,
    pub d4: Dim,
    pub d5: Dim,
    pub size: usize,
}

/// A shape of rank 6.
#[derive(Clone, Copy, Debug)]
pub struct Tensor6Shape {
    pub d1: Dim,
    pub d2: Dim,
    pub d3: Dim,
    pub d4: Dim,
    pub d5: Dim,
    pub d6: Dim,
    pub size: usize,
}

/// A shape of rank 7.
#[derive(Clone, Copy, Debug)]
pub struct Tensor7Shape {
    pub d1: Dim,
    pub d2: Dim,
    pub d3: Dim,
    pub d4: Dim,
    pub d5: Dim,
    pub d6: Dim,
    pub d7: Dim,
    pub size: usize,
}

/// A shape of rank 8.
#[derive(Clone, Copy, Debug)]
pub struct Tensor8Shape {
    pub d1: Dim,
    pub d2: Dim,
    pub d3: Dim,
    pub d4: Dim,
    pub d5: Dim,
    pub d6: Dim,
    pub d7: Dim,
    pub d8: Dim,
    pub size: usize,
}

impl Tensor1Shape {
    /// The element count equals the product of the dimension sizes.
    pub open spec fn wf(&self) -> bool {
        self.size == self.d.v
    }

    /// The total number of coordinates.
    pub fn count(&self) -> (r: usize)
        requires
            self.wf(),
        ensures
            r == self.size,
    {
        self.size
    }

    /// Extend the shape with a dimension fixed at compile time.
    pub fn with_static<const N: usize>(&self) -> (r: Tensor2Shape)
        requires
            self.wf(),
            self.size * N <= usize::MAX,
        ensures
            r.d1 == self.d,
            r.d2.v == N,
            r.d2.thumbprint is None,
            r.size == self.size * N,
            r.wf(),
    {
        Tensor2Shape {
            d1: self.d,
            d2: Dim { v: N, thumbprint: None },
            size: self.size * N,
        }
    }

    /// Extend the shape with one more dimension.
    pub fn with(&self, dimension: Dim) -> (r: Tensor2Shape)
        requires
            self.wf(),
            self.size * dimension.v <= usize::MAX,
        ensures
            r.d1 == self.d,
            r.d2 == dimension,
            r.size == self.size * dimension.v,
            r.wf(),
    {
        Tensor2Shape {
            d1: self.d,
            d2: dimension,
            size: self.size * dimension.as_usize(),
        }
    }

    /// Extend the shape by repeating its first dimension.
    pub fn with_first(&self) -> (r: Tensor2Shape)
        requires
            self.wf(),
            self.size * self.d.v <= usize::MAX,
        ensures
            r.d1 == self.d,
            r.d2 == self.d,
            r.size == self.size * self.d.v,
            r.wf(),
    {
        Tensor2Shape {
            d1: self.d,
            d2: self.d,
            size: self.size * self.d.as_usize(),
        }
    }
}

impl Tensor2Shape {
    /// The element count equals the product of the dimension sizes.
    pub open spec fn wf(&self) -> bool {
        self.size == (self.d1.v) * self.d2.v
    }

    /// The total number of coordinates.
    pub fn count(&self) -> (r: usize)
        requires
            self.wf(),
        ensures
            r == self.size,
    {
        self.size
    }

    /// Extend the shape with a dimension fixed at compile time.
    pub fn with_static<const N: usize>(&self) -> (r: Tensor3Shape)
        requires
            self.wf(),
            self.size * N <= usize::MAX,
        ensures
            r.d1 == self.d1,
            r.d2 == self.d2,
            r.d3.v == N,
            r.d3.thumbprint is None,
            r.size == self.size * N,
            r.wf(),
    {
        Tensor3Shape {
            d1: self.d1, d2: self.d2,
            d3: Dim { v: N, thumbprint: None },
            size: self.size * N,
        }
    }

    /// Extend the shape with one more dimension.
    pub fn with(&self, dimension: Dim) -> (r: Tensor3Shape)
        requires
            self.wf(),
            self.size * dimension.v <= usize::MAX,
        ensures
            r.d1 == self.d1,
            r.d2 == self.d2,
            r.d3 == dimension,
            r.size == self.size * dimension.v,
            r.wf(),
    {
        Tensor3Shape {
            d1: self.d1, d2: self.d2,
            d3: dimension,
            size: self.size * dimension.as_usize(),
        }
    }

    /// Extend the shape by repeating its first dimension.
    pub fn with_first(&self) -> (r: Tensor3Shape)
        requires
            self.wf(),
            self.size * self.d1.v <= usize::MAX,
        ensures
            r.d1 == self.d1,
            r.d2 == self.d2,
            r.d3 == self.d1,
            r.size == self.size * self.d1.v,
            r.wf(),
    {
        Tensor3Shape {
            d1: self.d1, d2: self.d2,
            d3: self.d1,
            size: self.size * self.d1.as_usize(),
        }
    }

    /// Extend the shape by repeating its second dimension.
    pub fn with_second(&self) -> (r: Tensor3Shape)
        requires
            self.wf(),
            self.size * self.d2.v <= usize::MAX,
        ensures
            r.d1 == self.d1,
            r.d2 == self.d2,
            r.d3 == self.d2,
            r.size == self.size * self.d2.v,
            r.wf(),
    {
        Tensor3Shape {
            d1: self.d1, d2: self.d2,
            d3: self.d2,
            size: self.size * self.d2.as_usize(),
        }
    }

    /// Swap the first and the second dimension.
    pub fn switch_12(&self) -> (r: Tensor2Shape)
        requires
            self.wf(),
        ensures
            r.d1 == self.d2,
            r.d2 == self.d1,
            r.size == self.size,
            r.wf(),
    {
        proof {
            assert((self.d2.v) * self.d1.v == (self.d1.v) * self.d2.v) by (nonlinear_arith);
        }
        Tensor2Shape { d1: self.d2, d2: self.d1, size: self.size }
    }
}

impl Tensor3Shape {
    /// The element count equals the product of the dimension sizes.
    pub open spec fn wf(&self) -> bool {
        self.size == ((self.d1.v) * self.d2.v) * self.d3.v
    }

    /// The total number of coordinates.
    pub fn count(&self) -> (r: usize)
        requires
            self.wf(),
        ensures
            r == self.size,
    {
        self.size
    }

    /// Extend the shape with a dimension fixed at compile time.
    pub fn with_static<const N: usize>(&self) -> (r: Tensor4Shape)
        requires
            self.wf(),
            self.size * N <= usize::MAX,
        ensures
            r.d1 == self.d1,
            r.d2 == self.d2,
            r.d3 == self.d3,
            r.d4.v == N,
            r.d4.thumbprint is None,
            r.size == self.size * N,
            r.wf(),
    {
        Tensor4Shape {
            d1: self.d1, d2: self.d2, d3: self.d3,
            d4: Dim { v: N, thumbprint: None },
            size: self.size * N,
        }
    }

    /// Extend the shape with one more dimension.
    pub fn with(&self, dimension: Dim) -> (r: Tensor4Shape)
        requires
            self.wf(),
            self.size * dimension.v <= usize::MAX,
        ensures
            r.d1 == self.d1,
            r.d2 == self.d2,
            r.d3 == self.d3,
            r.d4 == dimension,
            r.size == self.size * dimension.v,
            r.wf(),
    {
        Tensor4Shape {
            d1: self.d1, d2: self.d2, d3: self.d3,
            d4: dimension,
            size: self.size * dimension.as_usize(),
        }
    }

    /// Extend the shape by repeating its first dimension.
    pub fn with_first(&self) -> (r: Tensor4Shape)
        requires
            self.wf(),
            self.size * self.d1.v <= usize::MAX,
        ensures
            r.d1 == self.d1,
            r.d2 == self.d2,
            r.d3 == self.d3,
            r.d4 == self.d1,
            r.size == self.size * self.d1.v,
            r.wf(),
    {
        Tensor4Shape {
            d1: self.d1, d2: self.d2, d3: self.d3,
            d4: self.d1,
            size: self.size * self.d1.as_usize(),
        }
    }

    /// Extend the shape by repeating its second dimension.
    pub fn with_second(&self) -> (r: Tensor4Shape)
        requires
            self.wf(),
            self.size * self.d2.v <= usize::MAX,
        ensures
            r.d1 == self.d1,
            r.d2 == self.d2,
            r.d3 == self.d3,
            r.d4 == self.d2,
            r.size == self.size * self.d2.v,
            r.wf(),
    {
        Tensor4Shape {
            d1: self.d1, d2: self.d2, d3: self.d3,
            d4: self.d2,
            size: self.size * self.d2.as_usize(),
        }
    }

    /// Extend the shape by repeating its third dimension.
    pub fn with_third(&self) -> (r: Tensor4Shape)
        requires
            self.wf(),
            self.size * self.d3.v <= usize::MAX,
        ensures
            r.d1 == self.d1,
            r.d2 == self.d2,
            r.d3 == self.d3,
            r.d4 == self.d3,
            r.size == self.size * self.d3.v,
            r.wf(),
    {
        Tensor4Shape {
            d1: self.d1, d2: self.d2, d3: self.d3,
            d4: self.d3,
            size: self.size * self.d3.as_usize(),
        }
    }

    /// Swap the first and the second dimension.
    pub fn switch_12(&self) -> (r: Tensor3Shape)
        requires
            self.wf(),
        ensures
            r.d1 == self.d2,
            r.d2 == self.d1,
            r.d3 == self.d3,
            r.size == self.size,
            r.wf(),
    {
        proof {
            assert(((self.d2.v) * self.d1.v) * self.d3.v == ((self.d1.v) * self.d2.v) * self.d3.v) by (nonlinear_arith);
        }
        Tensor3Shape { d1: self.d2, d2: self.d1, d3: self.d3, size: self.size }
    }

    /// Swap the first and the third dimension.
    pub fn switch_13(&self) -> (r: Tensor3Shape)
        requires
            self.wf(),
        ensures
            r.d1 == self.d3,
            r.d2 == self.d2,
            r.d3 == self.d1,
            r.size == self.size,
            r.wf(),
    {
        proof {
            assert(((self.d3.v) * self.d2.v) * self.d1.v == ((self.d1.v) * self.d2.v) * self.d3.v) by (nonlinear_arith);
        }
        Tensor3Shape { d1: self.d3, d2: self.d2, d3: self.d1, size: self.size }
    }
}

impl Tensor4Shape {
    /// The element count equals the product of the dimension sizes.
    pub open spec fn wf(&self) -> bool {
        self.size == (((self.d1.v) * self.d2.v) * self.d3.v) * self.d4.v
    }

    /// The total number of coordinates.
    pub fn count(&self) -> (r: usize)
        requires
            self.wf(),
        ensures
            r == self.size,
    {
        self.size
    }

    /// Extend the shape with a dimension fixed at compile time.
    pub fn with_static<const N: usize>(&self) -> (r: Tensor5Shape)
        requires
            self.wf(),
            self.size * N <= usize::MAX,
        ensures
            r.d1 == self.d1,
            r.d2 == self.d2,
            r.d3 == self.d3,
            r.d4 == self.d4,
            r.d5.v == N,
            r.d5.thumbprint is None,
            r.size == self.size * N,
            r.wf(),
    {
        Tensor5Shape {
            d1: self.d1, d2: self.d2, d3: self.d3, d4: self.d4,
            d5: Dim { v: N, thumbprint: None },
            size: self.size * N,
        }
    }

    /// Extend the shape with one more dimension.
    pub fn with(&self, dimension: Dim) -> (r: Tensor5Shape)
        requires
            self.wf(),
            self.size * dimension.v <= usize::MAX,
        ensures
            r.d1 == self.d1,
            r.d2 == self.d2,
            r.d3 == self.d3,
            r.d4 == self.d4,
            r.d5 == dimension,
            r.size == self.size * dimension.v,
            r.wf(),
    {
        Tensor5Shape {
            d1: self.d1, d2: self.d2, d3: self.d3, d4: self.d4,
            d5: dimension,
            size: self.size * dimension.as_usize(),
        }
    }

    /// Extend the shape by repeating its first dimension.
    pub fn with_first(&self) -> (r: Tensor5Shape)
        requires
            self.wf(),
            self.size * self.d1.v <= usize::MAX,
        ensures
            r.d1 == self.d1,
            r.d2 == self.d2,
            r.d3 == self.d3,
            r.d4 == self.d4,
            r.d5 == self.d1,
            r.size == self.size * self.d1.v,
            r.wf(),
    {
        Tensor5Shape {
            d1: self.d1, d2: self.d2, d3: self.d3, d4: self.d4,
            d5: self.d1,
            size: self.size * self.d1.as_usize(),
        }
    }

    /// Extend the shape by repeating its second dimension.
    pub fn with_second(&self) -> (r: Tensor5Shape)
        requires
            self.wf(),
            self.size * self.d2.v <= usize::MAX,
        ensures
            r.d1 == self.d1,
            r.d2 == self.d2,
            r.d3 == self.d3,
            r.d4 == self.d4,
            r.d5 == self.d2,
            r.size == self.size * self.d2.v,
            r.wf(),
    {
        Tensor5Shape {
            d1: self.d1, d2: self.d2, d3: self.d3, d4: self.d4,
            d5: self.d2,
            size: self.size * self.d2.as_usize(),
        }
    }

    /// Extend the shape by repeating its third dimension.
    pub fn with_third(&self) -> (r: Tensor5Shape)
        requires
            self.wf(),
            self.size * self.d3.v <= usize::MAX,
        ensures
            r.d1 == self.d1,
            r.d2 == self.d2,
            r.d3 == self.d3,
            r.d4 == self.d4,
            r.d5 == self.d3,
            r.size == self.size * self.d3.v,
            r.wf(),
    {
        Tensor5Shape {
            d1: self.d1, d2: self.d2, d3: self.d3, d4: self.d4,
            d5: self.d3,
            size: self.size * self.d3.as_usize(),
        }
    }

    /// Extend the shape by repeating its fourth dimension.
    pub fn with_fourth(&self) -> (r: Tensor5Shape)
        requires
            self.wf(),
            self.size * self.d4.v <= usize::MAX,
        ensures
            r.d1 == self.d1,
            r.d2 == self.d2,
            r.d3 == self.d3,
            r.d4 == self.d4,
            r.d5 == self.d4,
            r.size == self.size * self.d4.v,
            r.wf(),
    {
        Tensor5Shape {
            d1: self.d1, d2: self.d2, d3: self.d3, d4: self.d4,
            d5: self.d4,
            size: self.size * self.d4.as_usize(),
        }
    }

    /// Swap the first and the second dimension.
    pub fn switch_12(&self) -> (r: Tensor4Shape)
        requires
            self.wf(),
        ensures
            r.d1 == self.d2,
            r.d2 == self.d1,
            r.d3 == self.d3,
            r.d4 == self.d4,
            r.size == self.size,
            r.wf(),
    {
        proof {
            assert((((self.d2.v) * self.d1.v) * self.d3.v) * self.d4.v == (((self.d1.v) * self.d2.v) * self.d3.v) * self.d4.v) by (nonlinear_arith);
        }
        Tensor4Shape { d1: self.d2, d2: self.d1, d3: self.d3, d4: self.d4, size: self.size }
    }

    /// Swap the first and the third dimension.
    pub fn switch_13(&self) -> (r: Tensor4Shape)
        requires
            self.wf(),
        ensures
            r.d1 == self.d3,
            r.d2 == self.d2,
            r.d3 == self.d1,
            r.d4 == self.d4,
            r.size == self.size,
            r.wf(),
    {
        proof {
            assert((((self.d3.v) * self.d2.v) * self.d1.v) * self.d4.v == (((self.d1.v) * self.d2.v) * self.d3.v) * self.d4.v) by (nonlinear_arith);
        }
        Tensor4Shape { d1: self.d3, d2: self.d2, d3: self.d1, d4: self.d4, size: self.size }
    }

    /// Swap the first and the fourth dimension.
    pub fn switch_14(&self) -> (r: Tensor4Shape)
        requires
            self.wf(),
        ensures
            r.d1 == self.d4,
            r.d2 == self.d2,
            r.d3 == self.d3,
            r.d4 == self.d1,
            r.size == self.size,
            r.wf(),
    {
        proof {
            assert((((self.d4.v) * self.d2.v) * self.d3.v) * self.d1.v == (((self.d1.v) * self.d2.v) * self.d3.v) * self.d4.v) by (nonlinear_arith);
        }
        Tensor4Shape { d1: self.d4, d2: self.d2, d3: self.d3, d4: self.d1, size: self.size }
    }
}

impl Tensor5Shape {
    /// The element count equals the product of the dimension sizes.
    pub open spec fn wf(&self) -> bool {
        self.size == ((((self.d1.v) * self.d2.v) * self.d3.v) * self.d4.v) * self.d5.v
    }

    /// The total number of coordinates.
    pub fn count(&self) -> (r: usize)
        requires
            self.wf(),
        ensures
            r == self.size,
    {
        self.size
    }

    /// Extend the shape with a dimension fixed at compile time.
    pub fn with_static<const N: usize>(&self) -> (r: Tensor6Shape)
        requires
            self.wf(),
            self.size * N <= usize::MAX,
        ensures
            r.d1 == self.d1,
            r.d2 == self.d2,
            r.d3 == self.d3,
            r.d4 == self.d4,
            r.d5 == self.d5,
            r.d6.v == N,
            r.d6.thumbprint is None,
            r.size == self.size * N,
            r.wf(),
    {
        Tensor6Shape {
            d1: self.d1, d2: self.d2, d3: self.d3, d4: self.d4, d5: self.d5,
            d6: Dim { v: N, thumbprint: None },
            size: self.size * N,
        }
    }

    /// Extend the shape with one more dimension.
    pub fn with(&self, dimension: Dim) -> (r: Tensor6Shape)
        requires
            self.wf(),
            self.size * dimension.v <= usize::MAX,
        ensures
            r.d1 == self.d1,
            r.d2 == self.d2,
            r.d3 == self.d3,
            r.d4 == self.d4,
            r.d5 == self.d5,
            r.d6 == dimension,
            r.size == self.size * dimension.v,
            r.wf(),
    {
        Tensor6Shape {
            d1: self.d1, d2: self.d2, d3: self.d3, d4: self.d4, d5: self.d5,
            d6: dimension,
            size: self.size * dimension.as_usize(),
        }
    }

    /// Extend the shape by repeating its first dimension.
    pub fn with_first(&self) -> (r: Tensor6Shape)
        requires
            self.wf(),
            self.size * self.d1.v <= usize::MAX,
        ensures
            r.d1 == self.d1,
            r.d2 == self.d2,
            r.d3 == self.d3,
            r.d4 == self.d4,
            r.d5 == self.d5,
            r.d6 == self.d1,
            r.size == self.size * self.d1.v,
            r.wf(),
    {
        Tensor6Shape {
            d1: self.d1, d2: self.d2, d3: self.d3, d4: self.d4, d5: self.d5,
            d6: self.d1,
            size: self.size * self.d1.as_usize(),
        }
    }

    /// Extend the shape by repeating its second dimension.
    pub fn with_second(&self) -> (r: Tensor6Shape)
        requires
            self.wf(),
            self.size * self.d2.v <= usize::MAX,
        ensures
            r.d1 == self.d1,
            r.d2 == self.d2,
            r.d3 == self.d3,
            r.d4 == self.d4,
            r.d5 == self.d5,
            r.d6 == self.d2,
            r.size == self.size * self.d2.v,
            r.wf(),
    {
        Tensor6Shape {
            d1: self.d1, d2: self.d2, d3: self.d3, d4: self.d4, d5: self.d5,
            d6: self.d2,
            size: self.size * self.d2.as_usize(),
        }
    }

    /// Extend the shape by repeating its third dimension.
    pub fn with_third(&self) -> (r: Tensor6Shape)
        requires
            self.wf(),
            self.size * self.d3.v <= usize::MAX,
        ensures
            r.d1 == self.d1,
            r.d2 == self.d2,
            r.d3 == self.d3,
            r.d4 == self.d4,
            r.d5 == self.d5,
            r.d6 == self.d3,
            r.size == self.size * self.d3.v,
            r.wf(),
    {
        Tensor6Shape {
            d1: self.d1, d2: self.d2, d3: self.d3, d4: self.d4, d5: self.d5,
            d6: self.d3,
            size: self.size * self.d3.as_usize(),
        }
    }

    /// Extend the shape by repeating its fourth dimension.
    pub fn with_fourth(&self) -> (r: Tensor6Shape)
        requires
            self.wf(),
            self.size * self.d4.v <= usize::MAX,
        ensures
            r.d1 == self.d1,
            r.d2 == self.d2,
            r.d3 == self.d3,
            r.d4 == self.d4,
            r.d5 == self.d5,
            r.d6 == self.d4,
            r.size == self.size * self.d4.v,
            r.wf(),
    {
        Tensor6Shape {
            d1: self.d1, d2: self.d2, d3: self.d3, d4: self.d4, d5: self.d5,
            d6: self.d4,
            size: self.size * self.d4.as_usize(),
        }
    }

    /// Extend the shape by repeating its fifth dimension.
    pub fn with_fifth(&self) -> (r: Tensor6Shape)
        requires
            self.wf(),
            self.size * self.d5.v <= usize::MAX,
        ensures
            r.d1 == self.d1,
            r.d2 == self.d2,
            r.d3 == self.d3,
            r.d4 == self.d4,
            r.d5 == self.d5,
            r.d6 == self.d5,
            r.size == self.size * self.d5.v,
            r.wf(),
    {
        Tensor6Shape {
            d1: self.d1, d2: self.d2, d3: self.d3, d4: self.d4, d5: self.d5,
            d6: self.d5,
            size: self.size * self.d5.as_usize(),
        }
    }

    /// Swap the first and the second dimension.
    pub fn switch_12(&self) -> (r: Tensor5Shape)
        requires
            self.wf(),
        ensures
            r.d1 == self.d2,
            r.d2 == self.d1,
            r.d3 == self.d3,
            r.d4 == self.d4,
            r.d5 == self.d5,
            r.size == self.size,
            r.wf(),
    {
        proof {
            assert(((((self.d2.v) * self.d1.v) * self.d3.v) * self.d4.v) * self.d5.v == ((((self.d1.v) * self.d2.v) * self.d3.v) * self.d4.v) * self.d5.v) by (nonlinear_arith);
        }
        Tensor5Shape { d1: self.d2, d2: self.d1, d3: self.d3, d4: self.d4, d5: self.d5, size: self.size }
    }

    /// Swap the first and the third dimension.
    pub fn switch_13(&self) -> (r: Tensor5Shape)
        requires
            self.wf(),
        ensures
            r.d1 == self.d3,
            r.d2 == self.d2,
            r.d3 == self.d1,
            r.d4 == self.d4,
            r.d5 == self.d5,
            r.size == self.size,
            r.wf(),
    {
        proof {
            assert(((((self.d3.v) * self.d2.v) * self.d1.v) * self.d4.v) * self.d5.v == ((((self.d1.v) * self.d2.v) * self.d3.v) * self.d4.v) * self.d5.v) by (nonlinear_arith);
        }
        Tensor5Shape { d1: self.d3, d2: self.d2, d3: self.d1, d4: self.d4, d5: self.d5, size: self.size }
    }

    /// Swap the first and the fourth dimension.
    pub fn switch_14(&self) -> (r: Tensor5Shape)
        requires
            self.wf(),
        ensures
            r.d1 == self.d4,
            r.d2 == self.d2,
            r.d3 == self.d3,
            r.d4 == self.d1,
            r.d5 == self.d5,
            r.size == self.size,
            r.wf(),
    {
        proof {
            assert(((((self.d4.v) * self.d2.v) * self.d3.v) * self.d1.v) * self.d5.v == ((((self.d1.v) * self.d2.v) * self.d3.v) * self.d4.v) * self.d5.v) by (nonlinear_arith);
        }
        Tensor5Shape { d1: self.d4, d2: self.d2, d3: self.d3, d4: self.d1, d5: self.d5, size: self.size }
    }

    /// Swap the first and the fifth dimension.
    pub fn switch_15(&self) -> (r: Tensor5Shape)
        requires
            self.wf(),
        ensures
            r.d1 == self.d5,
            r.d2 == self.d2,
            r.d3 == self.d3,
            r.d4 == self.d4,
            r.d5 == self.d1,
            r.size == self.size,
            r.wf(),
    {
        proof {
            assert(((((self.d5.v) * self.d2.v) * self.d3.v) * self.d4.v) * self.d1.v == ((((self.d1.v) * self.d2.v) * self.d3.v) * self.d4.v) * self.d5.v) by (nonlinear_arith);
        }
        Tensor5Shape { d1: self.d5, d2: self.d2, d3: self.d3, d4: self.d4, d5: self.d1, size: self.size }
    }
}

impl Tensor6Shape {
    /// The element count equals the product of the dimension sizes.
    pub open spec fn wf(&self) -> bool {
        self.size == (((((self.d1.v) * self.d2.v) * self.d3.v) * self.d4.v) * self.d5.v) * self.d6.v
    }

    /// The total number of coordinates.
    pub fn count(&self) -> (r: usize)
        requires
            self.wf(),
        ensures
            r == self.size,
    {
        self.size
    }

    /// Extend the shape with a dimension fixed at compile time.
    pub fn with_static<const N: usize>(&self) -> (r: Tensor7Shape)
        requires
            self.wf(),
            self.size * N <= usize::MAX,
        ensures
            r.d1 == self.d1,
            r.d2 == self.d2,
            r.d3 == self.d3,
            r.d4 == self.d4,
            r.d5 == self.d5,
            r.d6 == self.d6,
            r.d7.v == N,
            r.d7.thumbprint is None,
            r.size == self.size * N,
            r.wf(),
    {
        Tensor7Shape {
            d1: self.d1, d2: self.d2, d3: self.d3, d4: self.d4, d5: self.d5, d6: self.d6,
            d7: Dim { v: N, thumbprint: None },
            size: self.size * N,
        }
    }

    /// Extend the shape with one more dimension.
    pub fn with(&self, dimension: Dim) -> (r: Tensor7Shape)
        requires
            self.wf(),
            self.size * dimension.v <= usize::MAX,
        ensures
            r.d1 == self.d1,
            r.d2 == self.d2,
            r.d3 == self.d3,
            r.d4 == self.d4,
            r.d5 == self.d5,
            r.d6 == self.d6,
            r.d7 == dimension,
            r.size == self.size * dimension.v,
            r.wf(),
    {
        Tensor7Shape {
            d1: self.d1, d2: self.d2, d3: self.d3, d4: self.d4, d5: self.d5, d6: self.d6,
            d7: dimension,
            size: self.size * dimension.as_usize(),
        }
    }

    /// Extend the shape by repeating its first dimension.
    pub fn with_first(&self) -> (r: Tensor7Shape)
        requires
            self.wf(),
            self.size * self.d1.v <= usize::MAX,
        ensures
            r.d1 == self.d1,
            r.d2 == self.d2,
            r.d3 == self.d3,
            r.d4 == self.d4,
            r.d5 == self.d5,
            r.d6 == self.d6,
            r.d7 == self.d1,
            r.size == self.size * self.d1.v,
            r.wf(),
    {
        Tensor7Shape {
            d1: self.d1, d2: self.d2, d3: self.d3, d4: self.d4, d5: self.d5, d6: self.d6,
            d7: self.d1,
            size: self.size * self.d1.as_usize(),
        }
    }

    /// Extend the shape by repeating its second dimension.
    pub fn with_second(&self) -> (r: Tensor7Shape)
        requires
            self.wf(),
            self.size * self.d2.v <= usize::MAX,
        ensures
            r.d1 == self.d1,
            r.d2 == self.d2,
            r.d3 == self.d3,
            r.d4 == self.d4,
            r.d5 == self.d5,
            r.d6 == self.d6,
            r.d7 == self.d2,
            r.size == self.size * self.d2.v,
            r.wf(),
    {
        Tensor7Shape {
            d1: self.d1, d2: self.d2, d3: self.d3, d4: self.d4, d5: self.d5, d6: self.d6,
            d7: self.d2,
            size: self.size * self.d2.as_usize(),
        }
    }

    /// Extend the shape by repeating its third dimension.
    pub fn with_third(&self) -> (r: Tensor7Shape)
        requires
            self.wf(),
            self.size * self.d3.v <= usize::MAX,
        ensures
            r.d1 == self.d1,
            r.d2 == self.d2,
            r.d3 == self.d3,
            r.d4 == self.d4,
            r.d5 == self.d5,
            r.d6 == self.d6,
            r.d7 == self.d3,
            r.size == self.size * self.d3.v,
            r.wf(),
    {
        Tensor7Shape {
            d1: self.d1, d2: self.d2, d3: self.d3, d4: self.d4, d5: self.d5, d6: self.d6,
            d7: self.d3,
            size: self.size * self.d3.as_usize(),
        }
    }

    /// Extend the shape by repeating its fourth dimension.
    pub fn with_fourth(&self) -> (r: Tensor7Shape)
        requires
            self.wf(),
            self.size * self.d4.v <= usize::MAX,
        ensures
            r.d1 == self.d1,
            r.d2 == self.d2,
            r.d3 == self.d3,
            r.d4 == self.d4,
            r.d5 == self.d5,
            r.d6 == self.d6,
            r.d7 == self.d4,
            r.size == self.size * self.d4.v,
            r.wf(),
    {
        Tensor7Shape {
            d1: self.d1, d2: self.d2, d3: self.d3, d4: self.d4, d5: self.d5, d6: self.d6,
            d7: self.d4,
            size: self.size * self.d4.as_usize(),
        }
    }

    /// Extend the shape by repeating its fifth dimension.
    pub fn with_fifth(&self) -> (r: Tensor7Shape)
        requires
            self.wf(),
            self.size * self.d5.v <= usize::MAX,
        ensures
            r.d1 == self.d1,
            r.d2 == self.d2,
            r.d3 == self.d3,
            r.d4 == self.d4,
            r.d5 == self.d5,
            r.d6 == self.d6,
            r.d7 == self.d5,
            r.size == self.size * self.d5.v,
            r.wf(),
    {
        Tensor7Shape {
            d1: self.d1, d2: self.d2, d3: self.d3, d4: self.d4, d5: self.d5, d6: self.d6,
            d7: self.d5,
            size: self.size * self.d5.as_usize(),
        }
    }

    /// Extend the shape by repeating its sixth dimension.
    pub fn with_sixth(&self) -> (r: Tensor7Shape)
        requires
            self.wf(),
            self.size * self.d6.v <= usize::MAX,
        ensures
            r.d1 == self.d1,
            r.d2 == self.d2,
            r.d3 == self.d3,
            r.d4 == self.d4,
            r.d5 == self.d5,
            r.d6 == self.d6,
            r.d7 == self.d6,
            r.size == self.size * self.d6.v,
            r.wf(),
    {
        Tensor7Shape {
            d1: self.d1, d2: self.d2, d3: self.d3, d4: self.d4, d5: self.d5, d6: self.d6,
            d7: self.d6,
            size: self.size * self.d6.as_usize(),
        }
    }

    /// Swap the first and the second dimension.
    pub fn switch_12(&self) -> (r: Tensor6Shape)
        requires
            self.wf(),
        ensures
            r.d1 == self.d2,
            r.d2 == self.d1,
            r.d3 == self.d3,
            r.d4 == self.d4,
            r.d5 == self.d5,
            r.d6 == self.d6,
            r.size == self.size,
            r.wf(),
    {
        proof {
            assert((((((self.d2.v) * self.d1.v) * self.d3.v) * self.d4.v) * self.d5.v) * self.d6.v == (((((self.d1.v) * self.d2.v) * self.d3.v) * self.d4.v) * self.d5.v) * self.d6.v) by (nonlinear_arith);
        }
        Tensor6Shape { d1: self.d2, d2: self.d1, d3: self.d3, d4: self.d4, d5: self.d5, d6: self.d6, size: self.size }
    }

    /// Swap the first and the third dimension.
    pub fn switch_13(&self) -> (r: Tensor6Shape)
        requires
            self.wf(),
        ensures
            r.d1 == self.d3,
            r.d2 == self.d2,
            r.d3 == self.d1,
            r.d4 == self.d4,
            r.d5 == self.d5,
            r.d6 == self.d6,
            r.size == self.size,
            r.wf(),
    {
        proof {
            assert((((((self.d3.v) * self.d2.v) * self.d1.v) * self.d4.v) * self.d5.v) * self.d6.v == (((((self.d1.v) * self.d2.v) * self.d3.v) * self.d4.v) * self.d5.v) * self.d6.v) by (nonlinear_arith);
        }
        Tensor6Shape { d1: self.d3, d2: self.d2, d3: self.d1, d4: self.d4, d5: self.d5, d6: self.d6, size: self.size }
    }

    /// Swap the first and the fourth dimension.
    pub fn switch_14(&self) -> (r: Tensor6Shape)
        requires
            self.wf(),
        ensures
            r.d1 == self.d4,
            r.d2 == self.d2,
            r.d3 == self.d3,
            r.d4 == self.d1,
            r.d5 == self.d5,
            r.d6 == self.d6,
            r.size == self.size,
            r.wf(),
    {
        proof {
            assert((((((self.d4.v) * self.d2.v) * self.d3.v) * self.d1.v) * self.d5.v) * self.d6.v == (((((self.d1.v) * self.d2.v) * self.d3.v) * self.d4.v) * self.d5.v) * self.d6.v) by (nonlinear_arith);
        }
        Tensor6Shape { d1: self.d4, d2: self.d2, d3: self.d3, d4: self.d1, d5: self.d5, d6: self.d6, size: self.size }
    }

    /// Swap the first and the fifth dimension.
    pub fn switch_15(&self) -> (r: Tensor6Shape)
        requires
            self.wf(),
        ensures
            r.d1 == self.d5,
            r.d2 == self.d2,
            r.d3 == self.d3,
            r.d4 == self.d4,
            r.d5 == self.d1,
            r.d6 == self.d6,
            r.size == self.size,
            r.wf(),
    {
        proof {
            assert((((((self.d5.v) * self.d2.v) * self.d3.v) * self.d4.v) * self.d1.v) * self.d6.v == (((((self.d1.v) * self.d2.v) * self.d3.v) * self.d4.v) * self.d5.v) * self.d6.v) by (nonlinear_arith);
        }
        Tensor6Shape { d1: self.d5, d2: self.d2, d3: self.d3, d4: self.d4, d5: self.d1, d6: self.d6, size: self.size }
    }

    /// Swap the first and the sixth dimension.
    pub fn switch_16(&self) -> (r: Tensor6Shape)
        requires
            self.wf(),
        ensures
            r.d1 == self.d6,
            r.d2 == self.d2,
            r.d3 == self.d3,
            r.d4 == self.d4,
            r.d5 == self.d5,
            r.d6 == self.d1,
            r.size == self.size,
            r.wf(),
    {
        proof {
            assert((((((self.d6.v) * self.d2.v) * self.d3.v) * self.d4.v) * self.d5.v) * self.d1.v == (((((self.d1.v) * self.d2.v) * self.d3.v) * self.d4.v) * self.d5.v) * self.d6.v) by (nonlinear_arith);
        }
        Tensor6Shape { d1: self.d6, d2: self.d2, d3: self.d3, d4: self.d4, d5: self.d5, d6: self.d1, size: self.size }
    }
}

impl Tensor7Shape {
    /// The element count equals the product of the dimension sizes.
    pub open spec fn wf(&self) -> bool {
        self.size == ((((((self.d1.v) * self.d2.v) * self.d3.v) * self.d4.v) * self.d5.v) * self.d6.v) * self.d7.v
    }

    /// The total number of coordinates.
    pub fn count(&self) -> (r: usize)
        requires
            self.wf(),
        ensures
            r == self.size,
    {
        self.size
    }

    /// Extend the shape with a dimension fixed at compile time.
    pub fn with_static<const N: usize>(&self) -> (r: Tensor8Shape)
        requires
            self.wf(),
            self.size * N <= usize::MAX,
        ensures
            r.d1 == self.d1,
            r.d2 == self.d2,
            r.d3 == self.d3,
            r.d4 == self.d4,
            r.d5 == self.d5,
            r.d6 == self.d6,
            r.d7 == self.d7,
            r.d8.v == N,
            r.d8.thumbprint is None,
            r.size == self.size * N,
            r.wf(),
    {
        Tensor8Shape {
            d1: self.d1, d2: self.d2, d3: self.d3, d4: self.d4, d5: self.d5, d6: self.d6, d7: self.d7,
            d8: Dim { v: N, thumbprint: None },
            size: self.size * N,
        }
    }

    /// Extend the shape with one more dimension.
    pub fn with(&self, dimension: Dim) -> (r: Tensor8Shape)
        requires
            self.wf(),
            self.size * dimension.v <= usize::MAX,
        ensures
            r.d1 == self.d1,
            r.d2 == self.d2,
            r.d3 == self.d3,
            r.d4 == self.d4,
            r.d5 == self.d5,
            r.d6 == self.d6,
            r.d7 == self.d7,
            r.d8 == dimension,
            r.size == self.size * dimension.v,
            r.wf(),
    {
        Tensor8Shape {
            d1: self.d1, d2: self.d2, d3: self.d3, d4: self.d4, d5: self.d5, d6: self.d6, d7: self.d7,
            d8: dimension,
            size: self.size * dimension.as_usize(),
        }
    }

    /// Extend the shape by repeating its first dimension.
    pub fn with_first(&self) -> (r: Tensor8Shape)
        requires
            self.wf(),
            self.size * self.d1.v <= usize::MAX,
        ensures
            r.d1 == self.d1,
            r.d2 == self.d2,
            r.d3 == self.d3,
            r.d4 == self.d4,
            r.d5 == self.d5,
            r.d6 == self.d6,
            r.d7 == self.d7,
            r.d8 == self.d1,
            r.size == self.size * self.d1.v,
            r.wf(),
    {
        Tensor8Shape {
            d1: self.d1, d2: self.d2, d3: self.d3, d4: self.d4, d5: self.d5, d6: self.d6, d7: self.d7,
            d8: self.d1,
            size: self.size * self.d1.as_usize(),
        }
    }

    /// Extend the shape by repeating its second dimension.
    pub fn with_second(&self) -> (r: Tensor8Shape)
        requires
            self.wf(),
            self.size * self.d2.v <= usize::MAX,
        ensures
            r.d1 == self.d1,
            r.d2 == self.d2,
            r.d3 == self.d3,
            r.d4 == self.d4,
            r.d5 == self.d5,
            r.d6 == self.d6,
            r.d7 == self.d7,
            r.d8 == self.d2,
            r.size == self.size * self.d2.v,
            r.wf(),
    {
        Tensor8Shape {
            d1: self.d1, d2: self.d2, d3: self.d3, d4: self.d4, d5: self.d5, d6: self.d6, d7: self.d7,
            d8: self.d2,
            size: self.size * self.d2.as_usize(),
        }
    }

    /// Extend the shape by repeating its third dimension.
    pub fn with_third(&self) -> (r: Tensor8Shape)
        requires
            self.wf(),
            self.size * self.d3.v <= usize::MAX,
        ensures
            r.d1 == self.d1,
            r.d2 == self.d2,
            r.d3 == self.d3,
            r.d4 == self.d4,
            r.d5 == self.d5,
            r.d6 == self.d6,
            r.d7 == self.d7,
            r.d8 == self.d3,
            r.size == self.size * self.d3.v,
            r.wf(),
    {
        Tensor8Shape {
            d1: self.d1, d2: self.d2, d3: self.d3, d4: self.d4, d5: self.d5, d6: self.d6, d7: self.d7,
            d8: self.d3,
            size: self.size * self.d3.as_usize(),
        }
    }

    /// Extend the shape by repeating its fourth dimension.
    pub fn with_fourth(&self) -> (r: Tensor8Shape)
        requires
            self.wf(),
            self.size * self.d4.v <= usize::MAX,
        ensures
            r.d1 == self.d1,
            r.d2 == self.d2,
            r.d3 == self.d3,
            r.d4 == self.d4,
            r.d5 == self.d5,
            r.d6 == self.d6,
            r.d7 == self.d7,
            r.d8 == self.d4,
            r.size == self.size * self.d4.v,
            r.wf(),
    {
        Tensor8Shape {
            d1: self.d1, d2: self.d2, d3: self.d3, d4: self.d4, d5: self.d5, d6: self.d6, d7: self.d7,
            d8: self.d4,
            size: self.size * self.d4.as_usize(),
        }
    }

    /// Extend the shape by repeating its fifth dimension.
    pub fn with_fifth(&self) -> (r: Tensor8Shape)
        requires
            self.wf(),
            self.size * self.d5.v <= usize::MAX,
        ensures
            r.d1 == self.d1,
            r.d2 == self.d2,
            r.d3 == self.d3,
            r.d4 == self.d4,
            r.d5 == self.d5,
            r.d6 == self.d6,
            r.d7 == self.d7,
            r.d8 == self.d5,
            r.size == self.size * self.d5.v,
            r.wf(),
    {
        Tensor8Shape {
            d1: self.d1, d2: self.d2, d3: self.d3, d4: self.d4, d5: self.d5, d6: self.d6, d7: self.d7,
            d8: self.d5,
            size: self.size * self.d5.as_usize(),
        }
    }

    /// Extend the shape by repeating its sixth dimension.
    pub fn with_sixth(&self) -> (r: Tensor8Shape)
        requires
            self.wf(),
            self.size * self.d6.v <= usize::MAX,
        ensures
            r.d1 == self.d1,
            r.d2 == self.d2,
            r.d3 == self.d3,
            r.d4 == self.d4,
            r.d5 == self.d5,
            r.d6 == self.d6,
            r.d7 == self.d7,
            r.d8 == self.d6,
            r.size == self.size * self.d6.v,
            r.wf(),
    {
        Tensor8Shape {
            d1: self.d1, d2: self.d2, d3: self.d3, d4: self.d4, d5: self.d5, d6: self.d6, d7: self.d7,
            d8: self.d6,
            size: self.size * self.d6.as_usize(),
        }
    }

    /// Extend the shape by repeating its seventh dimension.
    pub fn with_seventh(&self) -> (r: Tensor8Shape)
        requires
            self.wf(),
            self.size * self.d7.v <= usize::MAX,
        ensures
            r.d1 == self.d1,
            r.d2 == self.d2,
            r.d3 == self.d3,
            r.d4 == self.d4,
            r.d5 == self.d5,
            r.d6 == self.d6,
            r.d7 == self.d7,
            r.d8 == self.d7,
            r.size == self.size * self.d7.v,
            r.wf(),
    {
        Tensor8Shape {
            d1: self.d1, d2: self.d2, d3: self.d3, d4: self.d4, d5: self.d5, d6: self.d6, d7: self.d7,
            d8: self.d7,
            size: self.size * self.d7.as_usize(),
        }
    }

    /// Swap the first and the second dimension.
    pub fn switch_12(&self) -> (r: Tensor7Shape)
        requires
            self.wf(),
        ensures
            r.d1 == self.d2,
            r.d2 == self.d1,
            r.d3 == self.d3,
            r.d4 == self.d4,
            r.d5 == self.d5,
            r.d6 == self.d6,
            r.d7 == self.d7,
            r.size == self.size,
            r.wf(),
    {
        proof {
            assert(((((((self.d2.v) * self.d1.v) * self.d3.v) * self.d4.v) * self.d5.v) * self.d6.v) * self.d7.v == ((((((self.d1.v) * self.d2.v) * self.d3.v) * self.d4.v) * self.d5.v) * self.d6.v) * self.d7.v) by (nonlinear_arith);
        }
        Tensor7Shape { d1: self.d2, d2: self.d1, d3: self.d3, d4: self.d4, d5: self.d5, d6: self.d6, d7: self.d7, size: self.size }
    }

    /// Swap the first and the third dimension.
    pub fn switch_13(&self) -> (r: Tensor7Shape)
        requires
            self.wf(),
        ensures
            r.d1 == self.d3,
            r.d2 == self.d2,
            r.d3 == self.d1,
            r.d4 == self.d4,
            r.d5 == self.d5,
            r.d6 == self.d6,
            r.d7 == self.d7,
            r.size == self.size,
            r.wf(),
    {
        proof {
            assert(((((((self.d3.v) * self.d2.v) * self.d1.v) * self.d4.v) * self.d5.v) * self.d6.v) * self.d7.v == ((((((self.d1.v) * self.d2.v) * self.d3.v) * self.d4.v) * self.d5.v) * self.d6.v) * self.d7.v) by (nonlinear_arith);
        }
        Tensor7Shape { d1: self.d3, d2: self.d2, d3: self.d1, d4: self.d4, d5: self.d5, d6: self.d6, d7: self.d7, size: self.size }
    }

    /// Swap the first and the fourth dimension.
    pub fn switch_14(&self) -> (r: Tensor7Shape)
        requires
            self.wf(),
        ensures
            r.d1 == self.d4,
            r.d2 == self.d2,
            r.d3 == self.d3,
            r.d4 == self.d1,
            r.d5 == self.d5,
            r.d6 == self.d6,
            r.d7 == self.d7,
            r.size == self.size,
            r.wf(),
    {
        proof {
            assert(((((((self.d4.v) * self.d2.v) * self.d3.v) * self.d1.v) * self.d5.v) * self.d6.v) * self.d7.v == ((((((self.d1.v) * self.d2.v) * self.d3.v) * self.d4.v) * self.d5.v) * self.d6.v) * self.d7.v) by (nonlinear_arith);
        }
        Tensor7Shape { d1: self.d4, d2: self.d2, d3: self.d3, d4: self.d1, d5: self.d5, d6: self.d6, d7: self.d7, size: self.size }
    }

    /// Swap the first and the fifth dimension.
    pub fn switch_15(&self) -> (r: Tensor7Shape)
        requires
            self.wf(),
        ensures
            r.d1 == self.d5,
            r.d2 == self.d2,
            r.d3 == self.d3,
            r.d4 == self.d4,
            r.d5 == self.d1,
            r.d6 == self.d6,
            r.d7 == self.d7,
            r.size == self.size,
            r.wf(),
    {
        proof {
            assert(((((((self.d5.v) * self.d2.v) * self.d3.v) * self.d4.v) * self.d1.v) * self.d6.v) * self.d7.v == ((((((self.d1.v) * self.d2.v) * self.d3.v) * self.d4.v) * self.d5.v) * self.d6.v) * self.d7.v) by (nonlinear_arith);
        }
        Tensor7Shape { d1: self.d5, d2: self.d2, d3: self.d3, d4: self.d4, d5: self.d1, d6: self.d6, d7: self.d7, size: self.size }
    }

    /// Swap the first and the sixth dimension.
    pub fn switch_16(&self) -> (r: Tensor7Shape)
        requires
            self.wf(),
        ensures
            r.d1 == self.d6,
            r.d2 == self.d2,
            r.d3 == self.d3,
            r.d4 == self.d4,
            r.d5 == self.d5,
            r.d6 == self.d1,
            r.d7 == self.d7,
            r.size == self.size,
            r.wf(),
    {
        proof {
            assert(((((((self.d6.v) * self.d2.v) * self.d3.v) * self.d4.v) * self.d5.v) * self.d1.v) * self.d7.v == ((((((self.d1.v) * self.d2.v) * self.d3.v) * self.d4.v) * self.d5.v) * self.d6.v) * self.d7.v) by (nonlinear_arith);
        }
        Tensor7Shape { d1: self.d6, d2: self.d2, d3: self.d3, d4: self.d4, d5: self.d5, d6: self.d1, d7: self.d7, size: self.size }
    }

    /// Swap the first and the seventh dimension.
    pub fn switch_17(&self) -> (r: Tensor7Shape)
        requires
            self.wf(),
        ensures
            r.d1 == self.d7,
            r.d2 == self.d2,
            r.d3 == self.d3,
            r.d4 == self.d4,
            r.d5 == self.d5,
            r.d6 == self.d6,
            r.d7 == self.d1,
            r.size == self.size,
            r.wf(),
    {
        proof {
            assert(((((((self.d7.v) * self.d2.v) * self.d3.v) * self.d4.v) * self.d5.v) * self.d6.v) * self.d1.v == ((((((self.d1.v) * self.d2.v) * self.d3.v) * self.d4.v) * self.d5.v) * self.d6.v) * self.d7.v) by (nonlinear_arith);
        }
        Tensor7Shape { d1: self.d7, d2: self.d2, d3: self.d3, d4: self.d4, d5: self.d5, d6: self.d6, d7: self.d1, size: self.size }
    }
}

impl Tensor8Shape {
    /// The element count equals the product of the dimension sizes.
    pub open spec fn wf(&self) -> bool {
        self.size == (((((((self.d1.v) * self.d2.v) * self.d3.v) * self.d4.v) * self.d5.v) * self.d6.v) * self.d7.v) * self.d8.v
    }

    /// The total number of coordinates.
    pub fn count(&self) -> (r: usize)
        requires
            self.wf(),
        ensures
            r == self.size,
    {
        self.size
    }

    /// Swap the first and the second dimension.
    pub fn switch_12(&self) -> (r: Tensor8Shape)
        requires
            self.wf(),
        ensures
            r.d1 == self.d2,
            r.d2 == self.d1,
            r.d3 == self.d3,
            r.d4 == self.d4,
            r.d5 == self.d5,
            r.d6 == self.d6,
            r.d7 == self.d7,
            r.d8 == self.d8,
            r.size == self.size,
            r.wf(),
    {
        proof {
            assert((((((((self.d2.v) * self.d1.v) * self.d3.v) * self.d4.v) * self.d5.v) * self.d6.v) * self.d7.v) * self.d8.v == (((((((self.d1.v) * self.d2.v) * self.d3.v) * self.d4.v) * self.d5.v) * self.d6.v) * self.d7.v) * self.d8.v) by (nonlinear_arith);
        }
        Tensor8Shape { d1: self.d2, d2: self.d1, d3: self.d3, d4: self.d4, d5: self.d5, d6: self.d6, d7: self.d7, d8: self.d8, size: self.size }
    }

    /// Swap the first and the third dimension.
    pub fn switch_13(&self) -> (r: Tensor8Shape)
        requires
            self.wf(),
        ensures
            r.d1 == self.d3,
            r.d2 == self.d2,
            r.d3 == self.d1,
            r.d4 == self.d4,
            r.d5 == self.d5,
            r.d6 == self.d6,
            r.d7 == self.d7,
            r.d8 == self.d8,
            r.size == self.size,
            r.wf(),
    {
        proof {
            assert((((((((self.d3.v) * self.d2.v) * self.d1.v) * self.d4.v) * self.d5.v) * self.d6.v) * self.d7.v) * self.d8.v == (((((((self.d1.v) * self.d2.v) * self.d3.v) * self.d4.v) * self.d5.v) * self.d6.v) * self.d7.v) * self.d8.v) by (nonlinear_arith);
        }
        Tensor8Shape { d1: self.d3, d2: self.d2, d3: self.d1, d4: self.d4, d5: self.d5, d6: self.d6, d7: self.d7, d8: self.d8, size: self.size }
    }

    /// Swap the first and the fourth dimension.
    pub fn switch_14(&self) -> (r: Tensor8Shape)
        requires
            self.wf(),
        ensures
            r.d1 == self.d4,
            r.d2 == self.d2,
            r.d3 == self.d3,
            r.d4 == self.d1,
            r.d5 == self.d5,
            r.d6 == self.d6,
            r.d7 == self.d7,
            r.d8 == self.d8,
            r.size == self.size,
            r.wf(),
    {
        proof {
            assert((((((((self.d4.v) * self.d2.v) * self.d3.v) * self.d1.v) * self.d5.v) * self.d6.v) * self.d7.v) * self.d8.v == (((((((self.d1.v) * self.d2.v) * self.d3.v) * self.d4.v) * self.d5.v) * self.d6.v) * self.d7.v) * self.d8.v) by (nonlinear_arith);
        }
        Tensor8Shape { d1: self.d4, d2: self.d2, d3: self.d3, d4: self.d1, d5: self.d5, d6: self.d6, d7: self.d7, d8: self.d8, size: self.size }
    }

    /// Swap the first and the fifth dimension.
    pub fn switch_15(&self) -> (r: Tensor8Shape)
        requires
            self.wf(),
        ensures
            r.d1 == self.d5,
            r.d2 == self.d2,
            r.d3 == self.d3,
            r.d4 == self.d4,
            r.d5 == self.d1,
            r.d6 == self.d6,
            r.d7 == self.d7,
            r.d8 == self.d8,
            r.size == self.size,
            r.wf(),
    {
        proof {
            assert((((((((self.d5.v) * self.d2.v) * self.d3.v) * self.d4.v) * self.d1.v) * self.d6.v) * self.d7.v) * self.d8.v == (((((((self.d1.v) * self.d2.v) * self.d3.v) * self.d4.v) * self.d5.v) * self.d6.v) * self.d7.v) * self.d8.v) by (nonlinear_arith);
        }
        Tensor8Shape { d1: self.d5, d2: self.d2, d3: self.d3, d4: self.d4, d5: self.d1, d6: self.d6, d7: self.d7, d8: self.d8, size: self.size }
    }

    /// Swap the first and the sixth dimension.
    pub fn switch_16(&self) -> (r: Tensor8Shape)
        requires
            self.wf(),
        ensures
            r.d1 == self.d6,
            r.d2 == self.d2,
            r.d3 == self.d3,
            r.d4 == self.d4,
            r.d5 == self.d5,
            r.d6 == self.d1,
            r.d7 == self.d7,
            r.d8 == self.d8,
            r.size == self.size,
            r.wf(),
    {
        proof {
            assert((((((((self.d6.v) * self.d2.v) * self.d3.v) * self.d4.v) * self.d5.v) * self.d1.v) * self.d7.v) * self.d8.v == (((((((self.d1.v) * self.d2.v) * self.d3.v) * self.d4.v) * self.d5.v) * self.d6.v) * self.d7.v) * self.d8.v) by (nonlinear_arith);
        }
        Tensor8Shape { d1: self.d6, d2: self.d2, d3: self.d3, d4: self.d4, d5: self.d5, d6: self.d1, d7: self.d7, d8: self.d8, size: self.size }
    }

    /// Swap the first and the seventh dimension.
    pub fn switch_17(&self) -> (r: Tensor8Shape)
        requires
            self.wf(),
        ensures
            r.d1 == self.d7,
            r.d2 == self.d2,
            r.d3 == self.d3,
            r.d4 == self.d4,
            r.d5 == self.d5,
            r.d6 == self.d6,
            r.d7 == self.d1,
            r.d8 == self.d8,
            r.size == self.size,
            r.wf(),
    {
        proof {
            assert((((((((self.d7.v) * self.d2.v) * self.d3.v) * self.d4.v) * self.d5.v) * self.d6.v) * self.d1.v) * self.d8.v == (((((((self.d1.v) * self.d2.v) * self.d3.v) * self.d4.v) * self.d5.v) * self.d6.v) * self.d7.v) * self.d8.v) by (nonlinear_arith);
        }
        Tensor8Shape { d1: self.d7, d2: self.d2, d3: self.d3, d4: self.d4, d5: self.d5, d6: self.d6, d7: self.d1, d8: self.d8, size: self.size }
    }

    /// Swap the first and the eighth dimension.
    pub fn switch_18(&self) -> (r: Tensor8Shape)
        requires
            self.wf(),
        ensures
            r.d1 == self.d8,
            r.d2 == self.d2,
            r.d3 == self.d3,
            r.d4 == self.d4,
            r.d5 == self.d5,
            r.d6 == self.d6,
            r.d7 == self.d7,
            r.d8 == self.d1,
            r.size == self.size,
            r.wf(),
    {
        proof {
            assert((((((((self.d8.v) * self.d2.v) * self.d3.v) * self.d4.v) * self.d5.v) * self.d6.v) * self.d7.v) * self.d1.v == (((((((self.d1.v) * self.d2.v) * self.d3.v) * self.d4.v) * self.d5.v) * self.d6.v) * self.d7.v) * self.d8.v) by (nonlinear_arith);
        }
        Tensor8Shape { d1: self.d8, d2: self.d2, d3: self.d3, d4: self.d4, d5: self.d5, d6: self.d6, d7: self.d7, d8: self.d1, size: self.size }
    }
}

impl PartialEq for Tensor1Shape {
    /// Shapes are equal when their dimension sizes are.
    fn eq(&self, other: &Tensor1Shape) -> (r: bool) {
        self.d == other.d
    }
}

impl vstd::std_specs::cmp::PartialEqSpecImpl for Tensor1Shape {
    open spec fn obeys_eq_spec() -> bool {
        true
    }

    open spec fn eq_spec(&self, other: &Tensor1Shape) -> bool {
        self.d.v == other.d.v
    }
}

impl PartialEq for Tensor2Shape {
    /// Shapes are equal when their dimension sizes are.
    fn eq(&self, other: &Tensor2Shape) -> (r: bool) {
        self.d1 == other.d1 && self.d2 == other.d2
    }
}

impl vstd::std_specs::cmp::PartialEqSpecImpl for Tensor2Shape {
    open spec fn obeys_eq_spec() -> bool {
        true
    }

    open spec fn eq_spec(&self, other: &Tensor2Shape) -> bool {
        self.d1.v == other.d1.v && self.d2.v == other.d2.v
    }
}

impl PartialEq for Tensor3Shape {
    /// Shapes are equal when their dimension sizes are.
    fn eq(&self, other: &Tensor3Shape) -> (r: bool) {
        self.d1 == other.d1 && self.d2 == other.d2 && self.d3 == other.d3
    }
}

impl vstd::std_specs::cmp::PartialEqSpecImpl for Tensor3Shape {
    open spec fn obeys_eq_spec() -> bool {
        true
    }

    open spec fn eq_spec(&self, other: &Tensor3Shape) -> bool {
        self.d1.v == other.d1.v && self.d2.v == other.d2.v && self.d3.v == other.d3.v
    }
}

impl Shape for Tensor1Shape {
    open spec fn spec_size(&self) -> usize {
        self.size
    }

    open spec fn shape_wf(&self) -> bool {
        self.wf()
    }

    fn rank(&self) -> u16 {
        1
    }

    fn count(&self) -> (r: usize) {
        self.size
    }
}

impl Shape for Tensor2Shape {
    open spec fn spec_size(&self) -> usize {
        self.size
    }

    open spec fn shape_wf(&self) -> bool {
        self.wf()
    }

    fn rank(&self) -> u16 {
        2
    }

    fn count(&self) -> (r: usize) {
        self.size
    }
}

impl Shape for Tensor3Shape {
    open spec fn spec_size(&self) -> usize {
        self.size
    }

    open spec fn shape_wf(&self) -> bool {
        self.wf()
    }

    fn rank(&self) -> u16 {
        3
    }

    fn count(&self) -> (r: usize) {
        self.size
    }
}

impl Shape for Tensor4Shape {
    open spec fn spec_size(&self) -> usize {
        self.size
    }

    open spec fn shape_wf(&self) -> bool {
        self.wf()
    }

    fn rank(&self) -> u16 {
        4
    }

    fn count(&self) -> (r: usize) {
        self.size
    }
}

impl Shape for Tensor5Shape {
    open spec fn spec_size(&self) -> usize {
        self.size
    }

    open spec fn shape_wf(&self) -> bool {
        self.wf()
    }

    fn rank(&self) -> u16 {
        5
    }

    fn count(&self) -> (r: usize) {
        self.size
    }
}

impl Shape for Tensor6Shape {
    open spec fn spec_size(&self) -> usize {
        self.size
    }

    open spec fn shape_wf(&self) -> bool {
        self.wf()
    }

    fn rank(&self) -> u16 {
        6
    }

    fn count(&self) -> (r: usize) {
        self.size
    }
}

impl Shape for Tensor7Shape {
    open spec fn spec_size(&self) -> usize {
        self.size
    }

    open spec fn shape_wf(&self) -> bool {
        self.wf()
    }

    fn rank(&self) -> u16 {
        7
    }

    fn count(&self) -> (r: usize) {
        self.size
    }
}

impl Shape for Tensor8Shape {
    open spec fn spec_size(&self) -> usize {
        self.size
    }

    open spec fn shape_wf(&self) -> bool {
        self.wf()
    }

    fn rank(&self) -> u16 {
        8
    }

    fn count(&self) -> (r: usize) {
        self.size
    }
}

/// The starting point for building a shape.
pub struct ShapeBuilder {}

impl ShapeBuilder {
    /// A rank-one shape with a dimension fixed at compile time.
    pub fn with_static<const N: usize>() -> (r: Tensor1Shape)
        ensures
            r.d.v == N,
            r.d.thumbprint is None,
            r.size == N,
            r.wf(),
    {
        Tensor1Shape { d: Dim { v: N, thumbprint: None }, size: N }
    }

    /// A rank-one shape around one dimension.
    pub fn with(dimension: Dim) -> (r: Tensor1Shape)
        ensures
            r.d == dimension,
            r.size == dimension.v,
            r.wf(),
    {
        Tensor1Shape { d: dimension, size: dimension.as_usize() }
    }
}

/// The starting point for building a tensor.
pub struct TensorBuilding {}

impl TensorBuilding {
    /// A rank-one shape with a dimension fixed at compile time.
    pub fn with_static<const N: usize>() -> (r: Tensor1Shape)
        ensures
            r.d.v == N,
            r.d.thumbprint is None,
            r.size == N,
            r.wf(),
    {
        Tensor1Shape { d: Dim { v: N, thumbprint: None }, size: N }
    }

    /// A rank-one shape around one dimension.
    pub fn with(dimension: Dim) -> (r: Tensor1Shape)
        ensures
            r.d == dimension,
            r.size == dimension.v,
            r.wf(),
    {
        Tensor1Shape { d: dimension, size: dimension.as_usize() }
    }

    /// A rank-one tensor read from a fixed-size array.
    pub fn from_array_to_tensor1<V: Clone, const N: usize>(array: &[V; N]) -> (r: Tensor1<V>)
        ensures
            r.d.v == N,
            r.d.thumbprint is None,
            r.wf(),
            forall|i: int|
                0 <= i < N ==> vstd::pervasive::cloned::<V>(array@[i], #[trigger] r.data@[i]),
    {
        crate::tensors::new_from_array(array)
    }
}

/// The text of a rank-one shape.
pub open spec fn spec_shape1_show(s: Tensor1Shape) -> Seq<char> {
    "\u{3008}"@ + spec_dim_show(s.d) + "\u{3009}"@
}

/// The text of a rank-two shape.
pub open spec fn spec_shape2_show(s: Tensor2Shape) -> Seq<char> {
    "\u{3008}"@ + spec_dim_show(s.d1) + ", "@ + spec_dim_show(s.d2) + "\u{3009}"@
}

/// The text of a rank-three shape.
pub open spec fn spec_shape3_show(s: Tensor3Shape) -> Seq<char> {
    "\u{3008}"@ + spec_dim_show(s.d1) + ", "@ + spec_dim_show(s.d2) + ", "@ + spec_dim_show(s.d3)
        + "\u{3009}"@
}

impl Tensor1Shape {
    /// The shape written between angle brackets.
    pub fn show(&self) -> (r: String)
        ensures
            r@ == spec_shape1_show(*self),
    {
        let mut s = String::from_str("\u{3008}");
        let d = self.d.show();
        s.append(d.as_str());
        s.append("\u{3009}");
        s
    }
}

impl Tensor2Shape {
    /// The shape written between angle brackets.
    pub fn show(&self) -> (r: String)
        ensures
            r@ == spec_shape2_show(*self),
    {
        let mut s = String::from_str("\u{3008}");
        let d1 = self.d1.show();
        s.append(d1.as_str());
        s.append(", ");
        let d2 = self.d2.show();
        s.append(d2.as_str());
        s.append("\u{3009}");
        s
    }
}

impl Tensor3Shape {
    /// The shape written between angle brackets.
    pub fn show(&self) -> (r: String)
        ensures
            r@ == spec_shape3_show(*self),
    {
        let mut s = String::from_str("\u{3008}");
        let d1 = self.d1.show();
        s.append(d1.as_str());
        s.append(", ");
        let d2 = self.d2.show();
        s.append(d2.as_str());
        s.append(", ");
        let d3 = self.d3.show();
        s.append(d3.as_str());
        s.append("\u{3009}");
        s
    }
}

} // verus!
