use vstd::prelude::*;

use vstd::arithmetic::div_mod::{lemma_fundamental_div_mod, lemma_fundamental_div_mod_converse};
use crate::model::{repeat, Cube};

verus! {

/// An array as a file stores it: its shape, and its elements in row-major
/// order. A shape of rank 0 is a scalar.
#[derive(Debug, Clone, PartialEq, Eq)]
pub struct StoredArray<T> {
    pub shape: Vec<usize>,
    pub data: Vec<T>,
}

/// Why a stored array could not be brought to its in-memory shape.
#[derive(Debug, Clone, Copy, PartialEq, Eq, Structural)]
pub enum ShapeError {
    /// The array has a number of dimensions that the format does not allow.
    Rank(usize),
    /// The elements do not match the shape.
    Inconsistent,
}

/// A copy of a vector.
pub fn copy_of<T: Copy>(v: &Vec<T>) -> (r: Vec<T>)
    ensures
        r@ == v@,
{
    let mut r: Vec<T> = Vec::with_capacity(v.len());
    let mut i: usize = 0;
    while i < v.len()
        invariant
            i <= v.len(),
            r@ == v@.subrange(0, i as int),
        decreases v.len() - i,
    {
        r.push(v[i]);
        i = i + 1;
        assert(r@ =~= v@.subrange(0, i as int));
    }
    assert(v@.subrange(0, v.len() as int) =~= v@);
    r
}

/// The one-axis form of a per-frequency array: a 1-D array as it is, or the
/// first row of a 2-D array whose leading axis is the spectral window.
pub open spec fn squeezed_rows<T>(a: StoredArray<T>) -> Result<Seq<T>, ShapeError> {
    if a.shape.len() == 1 {
        if a.data.len() == a.shape[0] {
            Ok(a.data@)
        } else {
            Err(ShapeError::Inconsistent)
        }
    } else if a.shape.len() == 2 {
        if a.shape[0] >= 1 && a.data.len() == extent(a.shape@) {
            Ok(a.data@.subrange(0, a.shape[1] as int))
        } else {
            Err(ShapeError::Inconsistent)
        }
    } else {
        Err(ShapeError::Rank(a.shape.len()))
    }
}

/// Brings a per-frequency array to one axis (see `squeezed_rows`).
pub fn squeeze_rows<T: Copy>(a: &StoredArray<T>) -> (r: Result<Vec<T>, ShapeError>)
    ensures
        match squeezed_rows(*a) {
            Ok(s) => r matches Ok(v) && v@ == s,
            Err(e) => r == Err::<Vec<T>, ShapeError>(e),
        },
{
    let rank = a.shape.len();
    if rank == 1 {
        if a.data.len() == a.shape[0] {
            Ok(copy_of(&a.data))
        } else {
            Err(ShapeError::Inconsistent)
        }
    } else if rank == 2 {
        if a.shape[0] >= 1 && extent_is(&a.shape, a.data.len()) {
            proof {
                lemma_extent2(a.shape@);
                assert(a.shape[1] <= a.shape[0] * a.shape[1]) by (nonlinear_arith)
                    requires a.shape[0] >= 1;
            }
            let n = a.shape[1];
            let mut v: Vec<T> = Vec::with_capacity(n);
            let mut i: usize = 0;
            while i < n
                invariant
                    i <= n,
                    n <= a.data.len(),
                    v@ == a.data@.subrange(0, i as int),
                decreases n - i,
            {
                v.push(a.data[i]);
                i = i + 1;
                assert(v@ =~= a.data@.subrange(0, i as int));
            }
            Ok(v)
        } else {
            Err(ShapeError::Inconsistent)
        }
    } else {
        Err(ShapeError::Rank(rank))
    }
}

/// The per-frequency form of an array that may be stored as a scalar: a scalar
/// is repeated `n` times; a 1-D array, or a 2-D one with a leading spectral
/// window axis, is brought to one axis as `squeezed_rows` does.
pub open spec fn broadcast_to<T>(a: StoredArray<T>, n: nat) -> Result<Seq<T>, ShapeError> {
    if a.shape.len() == 0 {
        if a.data.len() == 1 {
            Ok(Seq::new(n, |i: int| a.data[0]))
        } else {
            Err(ShapeError::Inconsistent)
        }
    } else {
        squeezed_rows(a)
    }
}

/// Brings an array that may be stored as a scalar to `n` elements (see
/// `broadcast_to`).
pub fn broadcast<T: Copy>(a: &StoredArray<T>, n: usize) -> (r: Result<Vec<T>, ShapeError>)
    ensures
        match broadcast_to(*a, n as nat) {
            Ok(s) => r matches Ok(v) && v@ == s,
            Err(e) => r == Err::<Vec<T>, ShapeError>(e),
        },
{
    let rank = a.shape.len();
    if rank == 0 {
        if a.data.len() == 1 {
            let v = repeat(a.data[0], n);
            assert(v@ =~= Seq::new(n as nat, |i: int| a.data[0]));
            Ok(v)
        } else {
            Err(ShapeError::Inconsistent)
        }
    } else {
        squeeze_rows(a)
    }
}

/// The product of the extents of a shape.
pub open spec fn extent(shape: Seq<usize>) -> int
    decreases shape.len(),
{
    if shape.len() == 0 {
        1
    } else {
        extent(shape.drop_last()) * shape.last()
    }
}

/// The elements of window 0 of a 4-D array [a, s, b, c], in order: block `i`
/// of `b * c` elements starts at `i * s * b * c`.
pub open spec fn first_window<T>(data: Seq<T>, a: nat, s: nat, b: nat, c: nat) -> Seq<T> {
    Seq::new(a * (b * c), |k: int| data[(k / (b * c) as int) * (s * (b * c)) + k % (b * c) as int])
}

/// The shape of the three-axis form of a data cube: a 3-D array keeps its
/// shape; a 4-D array whose second axis is the spectral window loses that axis.
pub open spec fn squeezed_shape<T>(a: StoredArray<T>) -> Result<(nat, nat, nat), ShapeError> {
    let sh = a.shape@;
    if sh.len() == 3 {
        if a.data.len() == extent(sh) {
            Ok((sh[0] as nat, sh[1] as nat, sh[2] as nat))
        } else {
            Err(ShapeError::Inconsistent)
        }
    } else if sh.len() == 4 {
        if a.data.len() == extent(sh) && sh[1] >= 1 {
            Ok((sh[0] as nat, sh[2] as nat, sh[3] as nat))
        } else {
            Err(ShapeError::Inconsistent)
        }
    } else {
        Err(ShapeError::Rank(a.shape.len()))
    }
}

/// Whether `r` is the three-axis form of the stored cube `a`.
pub open spec fn is_squeezed_cube<T>(a: StoredArray<T>, r: Result<Cube<T>, ShapeError>) -> bool {
    match squeezed_shape(a) {
        Ok(sh) => r matches Ok(v) && v.wf() && v.shape() == sh && (if a.shape.len() == 3 {
            v.data@ == a.data@
        } else {
            v.data@ == first_window(a.data@, a.shape[0] as nat, a.shape[1] as nat, a.shape[2] as nat, a.shape[3] as nat)
        }),
        Err(e) => r == Err::<Cube<T>, ShapeError>(e),
    }
}


fn window_zero<T: Copy>(data: &Vec<T>, a0: usize, s: usize, b: usize, c: usize) -> (r: Vec<T>)
    requires
        a0 >= 1,
        s >= 1,
        data.len() == a0 * (s * (b * c)),
    ensures
        r@ == first_window(data@, a0 as nat, s as nat, b as nat, c as nat),
{
    assert(s * (b * c) <= data.len() && b * c <= s * (b * c)) by (nonlinear_arith)
        requires a0 >= 1, s >= 1, data.len() == a0 * (s * (b * c));
    let block: usize = b * c;
    let stride: usize = s * block;
    let ghost total = a0 * block;
    let mut out: Vec<T> = Vec::new();
    let mut i: usize = 0;
    while i < a0
        invariant
            i <= a0,
            block == b * c,
            stride == s * block,
            block <= stride,
            data.len() == a0 * stride,
            out.len() == i * block,
            forall|k: int| 0 <= k < out.len() ==> #[trigger] out[k] == data[(k / block as int) * stride + k % block as int],
        decreases a0 - i,
    {
        assert(i * stride + stride <= a0 * stride) by (nonlinear_arith)
            requires i < a0;
        let base: usize = i * stride;
        let mut j: usize = 0;
        while j < block
            invariant
                i < a0,
                j <= block,
                block == b * c,
                stride == s * block,
                block <= stride,
                base == i * stride,
                base + stride <= a0 * stride,
                data.len() == a0 * stride,
                out.len() == i * block + j,
                forall|k: int| 0 <= k < out.len() ==> #[trigger] out[k] == data[(k / block as int) * stride + k % block as int],
            decreases block - j,
        {
            proof {
                lemma_fundamental_div_mod_converse((i * block + j) as int, block as int, i as int, j as int);
                vstd::arithmetic::div_mod::lemma_fundamental_div_mod_converse_div((i * block + j) as int, block as int, i as int, j as int);
            }
            out.push(data[base + j]);
            j = j + 1;
        }
        assert(i * block + block == (i + 1) * block) by (nonlinear_arith);
        i = i + 1;
    }
    assert(out@ =~= first_window(data@, a0 as nat, s as nat, b as nat, c as nat));
    out
}

/// Brings a stored data cube to three axes (see `is_squeezed_cube`).
pub fn squeeze_cube<T: Copy>(a: &StoredArray<T>) -> (r: Result<Cube<T>, ShapeError>)
    ensures
        is_squeezed_cube(*a, r),
{
    let rank = a.shape.len();
    if rank == 3 {
        if extent_is(&a.shape, a.data.len()) {
            proof {
                lemma_extent3(a.shape@);
            }
            Ok(Cube { dim0: a.shape[0], dim1: a.shape[1], dim2: a.shape[2], data: copy_of(&a.data) })
        } else {
            Err(ShapeError::Inconsistent)
        }
    } else if rank == 4 {
        if extent_is(&a.shape, a.data.len()) && a.shape[1] >= 1 {
            proof {
                lemma_extent4(a.shape@);
            }
            let a0 = a.shape[0];
            let s = a.shape[1];
            let b = a.shape[2];
            let c = a.shape[3];
            if a0 == 0 {
                let out: Vec<T> = Vec::new();
                assert(out@ =~= first_window(a.data@, 0, s as nat, b as nat, c as nat));
                assert(0 * b * c == 0) by (nonlinear_arith);
                Ok(Cube { dim0: 0, dim1: b, dim2: c, data: out })
            } else {
                let out = window_zero(&a.data, a0, s, b, c);
                assert(a0 * (b * c) == a0 * b * c) by (nonlinear_arith);
                Ok(Cube { dim0: a0, dim1: b, dim2: c, data: out })
            }
        } else {
            Err(ShapeError::Inconsistent)
        }
    } else {
        Err(ShapeError::Rank(rank))
    }
}

/// A per-frequency array stored 2-D with a single leading row reads as the
/// same elements as its 1-D encoding.
pub proof fn lemma_legacy_rows<T>(flat: StoredArray<T>, legacy: StoredArray<T>)
    requires
        flat.shape.len() == 1,
        legacy.shape@ == seq![1usize, flat.shape[0]],
        legacy.data@ == flat.data@,
    ensures
        squeezed_rows(legacy) == squeezed_rows(flat),
{
    lemma_extent2(legacy.shape@);
    assert(legacy.shape[0] * legacy.shape[1] == legacy.shape[1]);
    if flat.data.len() == flat.shape[0] {
        assert(legacy.data@.subrange(0, legacy.shape[1] as int) =~= flat.data@);
    }
}

/// A channel-width array stored 2-D with a single leading row reads as the
/// same elements as its 1-D encoding.
pub proof fn lemma_legacy_channel_width<T>(flat: StoredArray<T>, legacy: StoredArray<T>, n: nat)
    requires
        flat.shape.len() == 1,
        legacy.shape@ == seq![1usize, flat.shape[0]],
        legacy.data@ == flat.data@,
    ensures
        broadcast_to(legacy, n) == broadcast_to(flat, n),
{
    lemma_legacy_rows(flat, legacy);
}

/// A data cube stored 4-D with a single spectral window reads as the same
/// cube as its 3-D encoding.
pub proof fn lemma_legacy_cube<T>(
    c3: StoredArray<T>,
    c4: StoredArray<T>,
    r3: Result<Cube<T>, ShapeError>,
    r4: Result<Cube<T>, ShapeError>,
)
    requires
        c3.shape.len() == 3,
        c4.shape@ == seq![c3.shape[0], 1usize, c3.shape[1], c3.shape[2]],
        c4.data@ == c3.data@,
        is_squeezed_cube(c3, r3),
        is_squeezed_cube(c4, r4),
    ensures
        r3 is Ok <==> r4 is Ok,
        r3 matches Ok(x) ==> (r4 matches Ok(y) && x.shape() == y.shape() && x.data@ == y.data@),
{
    lemma_extent3(c3.shape@);
    lemma_extent4(c4.shape@);
    let a = c3.shape[0] as nat;
    let b = c3.shape[1] as nat;
    let c = c3.shape[2] as nat;
    assert(a * (1 * (b * c)) == a * b * c) by (nonlinear_arith);
    if r3 is Ok {
        let w = first_window(c4.data@, a, 1, b, c);
        assert(a * (b * c) == a * b * c) by (nonlinear_arith);
        assert forall|k: int| 0 <= k < w.len() implies #[trigger] w[k] == c3.data@[k] by {
            let bc = (b * c) as int;
            assert(bc > 0) by (nonlinear_arith)
                requires 0 <= k, k < a * (b * c), bc == b * c, b >= 0, c >= 0, a >= 0;
            lemma_fundamental_div_mod(k, bc);
            assert((k / bc) * (1 * (b * c)) + k % bc == k) by (nonlinear_arith)
                requires k == bc * (k / bc) + k % bc, bc == b * c;
        }
        assert(w =~= c3.data@);
    }
}

proof fn lemma_extent2(sh: Seq<usize>)
    requires
        sh.len() == 2,
    ensures
        extent(sh) == sh[0] * sh[1],
{
    let d1 = sh.drop_last();
    let d2 = d1.drop_last();
    assert(d2.len() == 0);
    assert(extent(d2) == 1);
    assert(d1.last() == sh[0]);
    assert(extent(d1) == extent(d2) * d1.last());
    assert(extent(sh) == extent(d1) * sh[1]);
}

pub proof fn lemma_extent3(sh: Seq<usize>)
    requires
        sh.len() == 3,
    ensures
        extent(sh) == sh[0] * sh[1] * sh[2],
{
    let d1 = sh.drop_last();
    let d2 = d1.drop_last();
    let d3 = d2.drop_last();
    assert(d3.len() == 0);
    assert(extent(d3) == 1);
    assert(d2.last() == sh[0]);
    assert(extent(d2) == extent(d3) * d2.last());
    assert(d1.last() == sh[1]);
    assert(extent(d1) == extent(d2) * d1.last());
    assert(extent(sh) == extent(d1) * sh[2]);
}

proof fn lemma_extent4(sh: Seq<usize>)
    requires
        sh.len() == 4,
    ensures
        extent(sh) == sh[0] * (sh[1] * (sh[2] * sh[3])),
{
    lemma_extent3(sh.drop_last());
    assert(sh.drop_last()[0] == sh[0] && sh.drop_last()[1] == sh[1] && sh.drop_last()[2] == sh[2]);
    assert(sh[0] * sh[1] * sh[2] * sh[3] == sh[0] * (sh[1] * (sh[2] * sh[3]))) by (nonlinear_arith);
}

/// Whether a shape has exactly `n` elements.
fn extent_is(shape: &Vec<usize>, n: usize) -> (r: bool)
    ensures
        r == (extent(shape@) == n),
{
    let mut z: usize = 0;
    while z < shape.len()
        invariant
            z <= shape.len(),
            forall|k: int| 0 <= k < z ==> shape[k] >= 1,
        decreases shape.len() - z,
    {
        if shape[z] == 0 {
            proof {
                lemma_extent_zero_factor(shape@, z as int);
            }
            return n == 0;
        }
        z = z + 1;
    }
    let mut p: usize = 1;
    let mut i: usize = 0;
    while i < shape.len()
        invariant
            i <= shape.len(),
            forall|k: int| 0 <= k < shape.len() ==> shape[k] >= 1,
            p == extent(shape@.subrange(0, i as int)),
        decreases shape.len() - i,
    {
        assert(shape@.subrange(0, i + 1).drop_last() =~= shape@.subrange(0, i as int));
        match p.checked_mul(shape[i]) {
            Some(q) => {
                p = q;
            },
            None => {
                proof {
                    lemma_extent_ge_prefix(shape@, i as int + 1);
                }
                return false;
            },
        }
        i = i + 1;
    }
    assert(shape@.subrange(0, shape.len() as int) =~= shape@);
    p == n
}

proof fn lemma_extent_zero_factor(sh: Seq<usize>, k: int)
    requires
        0 <= k < sh.len(),
        sh[k] == 0,
    ensures
        extent(sh) == 0,
    decreases sh.len(),
{
    if k < sh.len() - 1 {
        lemma_extent_zero_factor(sh.drop_last(), k);
        assert(extent(sh) == extent(sh.drop_last()) * sh.last());
    } else {
        assert(sh.last() == 0);
        assert(extent(sh) == extent(sh.drop_last()) * sh.last());
    }
}

proof fn lemma_extent_ge_prefix(sh: Seq<usize>, k: int)
    requires
        0 <= k <= sh.len(),
        forall|i: int| 0 <= i < sh.len() ==> sh[i] >= 1,
    ensures
        extent(sh) >= extent(sh.subrange(0, k)),
        extent(sh) >= 1,
    decreases sh.len(),
{
    if sh.len() == 0 {
        assert(sh.subrange(0, k) =~= sh);
    } else {
        let d = sh.drop_last();
        if k == sh.len() {
            assert(sh.subrange(0, k) =~= sh);
            lemma_extent_ge_prefix(d, 0);
        } else {
            assert(sh.subrange(0, k) =~= d.subrange(0, k));
            lemma_extent_ge_prefix(d, k);
        }
        assert(extent(d) * sh.last() >= extent(d)) by (nonlinear_arith)
            requires sh.last() >= 1, extent(d) >= 1;
    }
}

} // verus!
