use vstd::prelude::*;

use crate::meta::{is_fresh_arrays, ArrayMetaData, UVMeta};
use crate::model::{filled_with, ComplexBits, Cube, SingleBits};

verus! {

/// A visibility dataset: its description, its per-axis arrays and, unless it
/// holds metadata only, the visibility, sample-count and flag cubes.
#[derive(Debug, Clone, PartialEq, Eq)]
pub struct UVData {
    pub meta: UVMeta,
    pub meta_arrays: ArrayMetaData,
    pub data_array: Option<Cube<ComplexBits>>,
    pub nsample_array: Option<Cube<SingleBits>>,
    pub flag_array: Option<Cube<bool>>,
}

/// The number of elements of a data cube of a description.
pub open spec fn cube_len(meta: UVMeta) -> int {
    meta.nblts * meta.ntimes * meta.npols
}

/// Whether `c` has the shape [nblts, ntimes, npols] of `meta`.
pub open spec fn has_data_shape<T>(c: Cube<T>, meta: UVMeta) -> bool {
    c.wf() && c.shape() == (meta.nblts as nat, meta.ntimes as nat, meta.npols as nat)
}

/// The zero visibility.
pub open spec fn zero_vis() -> ComplexBits {
    ComplexBits { re: 0, im: 0 }
}

/// What `UVData::new(meta, metadata_only)` builds.
pub open spec fn is_new_uvdata(r: UVData, meta: UVMeta, metadata_only: bool) -> bool {
    &&& r.meta == meta
    &&& is_fresh_arrays(r.meta_arrays, meta)
    &&& if metadata_only {
        r.data_array is None && r.nsample_array is None && r.flag_array is None
    } else {
        &&& r.data_array matches Some(d) && has_data_shape(d, meta) && filled_with(d, zero_vis())
        &&& r.nsample_array matches Some(n) && has_data_shape(n, meta) && filled_with(n, 0u32)
        &&& r.flag_array matches Some(f) && has_data_shape(f, meta) && filled_with(f, false)
    }
}

/// Whether the description allows its data cubes to be held in memory.
pub open spec fn cubes_fit(meta: UVMeta) -> bool {
    cube_len(meta) <= usize::MAX
}

/// Whether the data cubes of a description can be held in memory.
pub fn cube_fits(meta: &UVMeta) -> (r: bool)
    ensures
        r == cubes_fit(*meta),
{
    let a = meta.nblts as u128;
    let b = meta.ntimes as u128;
    let c = meta.npols as u128;
    assert(a * b <= 0xffff_ffff * 0xffff_ffffu128) by (nonlinear_arith)
        requires a <= 0xffff_ffff, b <= 0xffff_ffff;
    assert(a * b * c <= 0xffff_ffff * 0xffff_ffffu128 * 0xff) by (nonlinear_arith)
        requires a * b <= 0xffff_ffff * 0xffff_ffffu128, c <= 0xff;
    a * b * c <= usize::MAX as u128
}

impl UVData {
    /// Builds a dataset from its description: fresh arrays, and either no
    /// cubes (`metadata_only`) or zero-filled cubes of shape
    /// [nblts, ntimes, npols].
    pub fn new(meta: UVMeta, metadata_only: bool) -> (r: UVData)
        requires
            metadata_only || cubes_fit(meta),
        ensures
            is_new_uvdata(r, meta, metadata_only),
    {
        let meta_arrays = ArrayMetaData::new(&meta);
        if metadata_only {
            UVData { meta, meta_arrays, data_array: None, nsample_array: None, flag_array: None }
        } else {
            let d0 = meta.nblts as usize;
            let d1 = meta.ntimes as usize;
            let d2 = meta.npols as usize;
            let data = Cube::filled(d0, d1, d2, ComplexBits { re: 0, im: 0 });
            let samples = Cube::filled(d0, d1, d2, 0u32);
            let flags = Cube::filled(d0, d1, d2, false);
            UVData {
                meta,
                meta_arrays,
                data_array: Some(data),
                nsample_array: Some(samples),
                flag_array: Some(flags),
            }
        }
    }
}

impl From<UVMeta> for UVData {
    /// A metadata-only dataset.
    fn from(meta: UVMeta) -> (r: UVData)
        ensures
            is_new_uvdata(r, meta, true),
    {
        UVData::new(meta, true)
    }
}

// A dataset holds texts, which no spec function can build, so `from` states
// its result in its own `ensures` and no spec form of it is offered.
impl vstd::std_specs::convert::FromSpecImpl<UVMeta> for UVData {
    open spec fn obeys_from_spec() -> bool {
        false
    }

    open spec fn from_spec(meta: UVMeta) -> UVData {
        arbitrary()
    }
}

impl From<(UVMeta, bool)> for UVData {
    /// `UVData::new(meta, metadata_only)`. Cubes whose element count does not
    /// fit the address space cannot be built: such a dataset holds metadata only.
    fn from(args: (UVMeta, bool)) -> (r: UVData)
        ensures
            is_new_uvdata(r, args.0, args.1 || !cubes_fit(args.0)),
    {
        let (meta, metadata_only) = args;
        let fits = cube_fits(&meta);
        UVData::new(meta, metadata_only || !fits)
    }
}

impl vstd::std_specs::convert::FromSpecImpl<(UVMeta, bool)> for UVData {
    open spec fn obeys_from_spec() -> bool {
        false
    }

    open spec fn from_spec(args: (UVMeta, bool)) -> UVData {
        arbitrary()
    }
}

} // verus!
