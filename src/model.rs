use vstd::prelude::*;

verus! {

/// A double-precision number, carried as its IEEE-754 bit pattern. The library
/// moves such values and never computes with them.
pub type DoubleBits = u64;

/// A single-precision number, carried as its IEEE-754 bit pattern.
pub type SingleBits = u32;

/// A complex visibility: real and imaginary parts in double precision.
#[derive(Debug, Clone, Copy, PartialEq, Eq, Structural)]
pub struct ComplexBits {
    pub re: DoubleBits,
    pub im: DoubleBits,
}

/// A three-axis array, stored flat in row-major order.
#[derive(Debug, Clone, PartialEq, Eq)]
pub struct Cube<T> {
    pub dim0: usize,
    pub dim1: usize,
    pub dim2: usize,
    pub data: Vec<T>,
}

impl<T> Cube<T> {
    /// The flat data holds exactly one element per index triple.
    pub open spec fn wf(&self) -> bool {
        self.data.len() == self.dim0 * self.dim1 * self.dim2
    }

    pub open spec fn shape(&self) -> (nat, nat, nat) {
        (self.dim0 as nat, self.dim1 as nat, self.dim2 as nat)
    }
}

/// Whether every element of a cube is `v`.
pub open spec fn filled_with<T>(c: Cube<T>, v: T) -> bool {
    forall|i: int| 0 <= i < c.data.len() ==> #[trigger] c.data[i] == v
}

impl<T: Copy> Cube<T> {
    /// A cube of the given shape with every element set to `v`.
    pub fn filled(dim0: usize, dim1: usize, dim2: usize, v: T) -> (r: Cube<T>)
        requires
            dim0 * dim1 * dim2 <= usize::MAX,
        ensures
            r.wf(),
            r.shape() == (dim0 as nat, dim1 as nat, dim2 as nat),
            filled_with(r, v),
    {
        assert(dim0 * dim1 <= dim0 * dim1 * dim2 || dim2 == 0) by (nonlinear_arith);
        let n: usize = if dim2 == 0 { 0 } else { dim0 * dim1 * dim2 };
        assert(n == dim0 * dim1 * dim2) by (nonlinear_arith)
            requires n == (if dim2 == 0 { 0 } else { dim0 * dim1 * dim2 }),
        ;
        let mut data: Vec<T> = Vec::with_capacity(n);
        let mut i: usize = 0;
        while i < n
            invariant
                i <= n,
                data.len() == i,
                forall|j: int| 0 <= j < i ==> #[trigger] data[j] == v,
            decreases n - i,
        {
            data.push(v);
            i = i + 1;
        }
        Cube { dim0, dim1, dim2, data }
    }
}

/// A vector of `n` copies of `v`.
pub fn repeat<T: Copy>(v: T, n: usize) -> (r: Vec<T>)
    ensures
        r.len() == n,
        forall|i: int| 0 <= i < n ==> #[trigger] r[i] == v,
{
    let mut r: Vec<T> = Vec::with_capacity(n);
    let mut i: usize = 0;
    while i < n
        invariant
            i <= n,
            r.len() == i,
            forall|j: int| 0 <= j < i ==> #[trigger] r[j] == v,
        decreases n - i,
    {
        r.push(v);
        i = i + 1;
    }
    r
}

} // verus!
