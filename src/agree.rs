use vstd::prelude::*;

use crate::catalog::{CatTypes, Catalog};
use crate::meta::{ArrayMetaData, UVMeta};
use crate::model::Cube;
use crate::uvdata::UVData;

verus! {

// Equality of datasets is exact on every value that is not floating point,
// and within a tolerance on the rest. These functions decide the exact part;
// the tolerance part compares floating-point values and is not decided here.

/// Two optional texts agree: both absent, or both present with the same characters.
pub open spec fn texts_agree(a: Option<String>, b: Option<String>) -> bool {
    match (a, b) {
        (Some(x), Some(y)) => x@ == y@,
        (None, None) => true,
        _ => false,
    }
}

/// Two optional values are both present or both absent.
pub open spec fn both_or_neither<T, U>(a: Option<T>, b: Option<U>) -> bool {
    (a is Some) == (b is Some)
}

/// The exact part of the equality of descriptions: every field that is not
/// floating point is equal, and the optional floating-point fields are present
/// in both or in neither.
pub open spec fn meta_agree(a: UVMeta, b: UVMeta) -> bool {
    &&& a.nbls == b.nbls && a.nblts == b.nblts && a.nspws == b.nspws && a.npols == b.npols
    &&& a.ntimes == b.ntimes && a.nfreqs == b.nfreqs && a.nphases == b.nphases
    &&& a.nants_data == b.nants_data && a.nants_telescope == b.nants_telescope
    &&& a.blt_order == b.blt_order && a.vis_units == b.vis_units && a.phase_type == b.phase_type
    &&& a.x_orientation == b.x_orientation && a.eq_coeffs_convention == b.eq_coeffs_convention
    &&& a.instrument@ == b.instrument@ && a.telescope_name@ == b.telescope_name@
    &&& a.object_name@ == b.object_name@ && a.history@ == b.history@
    &&& texts_agree(a.rdate, b.rdate) && texts_agree(a.timesys, b.timesys)
    &&& a.uvplane_reference_time == b.uvplane_reference_time
    &&& both_or_neither(a.dut1, b.dut1) && both_or_neither(a.gst0, b.gst0)
    &&& both_or_neither(a.earth_omega, b.earth_omega)
}

fn same_text(a: &String, b: &String) -> (r: bool)
    ensures
        r == (a@ == b@),
{
    *a == *b
}

fn same_opt_text(a: &Option<String>, b: &Option<String>) -> (r: bool)
    ensures
        r == texts_agree(*a, *b),
{
    match (a, b) {
        (Some(x), Some(y)) => *x == *y,
        (None, None) => true,
        _ => false,
    }
}

/// Decides the exact part of the equality of two descriptions.
pub fn meta_match(a: &UVMeta, b: &UVMeta) -> (r: bool)
    ensures
        r == meta_agree(*a, *b),
{
    a.nbls == b.nbls && a.nblts == b.nblts && a.nspws == b.nspws && a.npols == b.npols
        && a.ntimes == b.ntimes && a.nfreqs == b.nfreqs && a.nphases == b.nphases
        && a.nants_data == b.nants_data && a.nants_telescope == b.nants_telescope
        && a.blt_order == b.blt_order && a.vis_units == b.vis_units && a.phase_type == b.phase_type
        && a.x_orientation == b.x_orientation && a.eq_coeffs_convention == b.eq_coeffs_convention
        && same_text(&a.instrument, &b.instrument) && same_text(&a.telescope_name, &b.telescope_name)
        && same_text(&a.object_name, &b.object_name) && same_text(&a.history, &b.history)
        && same_opt_text(&a.rdate, &b.rdate) && same_opt_text(&a.timesys, &b.timesys)
        && a.uvplane_reference_time == b.uvplane_reference_time
        && a.dut1.is_some() == b.dut1.is_some() && a.gst0.is_some() == b.gst0.is_some()
        && a.earth_omega.is_some() == b.earth_omega.is_some()
}

/// Whether two vectors of unsigned numbers are equal.
pub fn same_u32s(a: &Vec<u32>, b: &Vec<u32>) -> (r: bool)
    ensures
        r == (a@ == b@),
{
    if a.len() != b.len() {
        return false;
    }
    let mut i: usize = 0;
    while i < a.len()
        invariant
            i <= a.len(),
            a.len() == b.len(),
            forall|k: int| 0 <= k < i ==> a[k] == b[k],
        decreases a.len() - i,
    {
        if a[i] != b[i] {
            return false;
        }
        i = i + 1;
    }
    assert(a@ =~= b@);
    true
}

/// Whether two vectors of small signed numbers are equal.
pub fn same_i8s(a: &Vec<i8>, b: &Vec<i8>) -> (r: bool)
    ensures
        r == (a@ == b@),
{
    if a.len() != b.len() {
        return false;
    }
    let mut i: usize = 0;
    while i < a.len()
        invariant
            i <= a.len(),
            a.len() == b.len(),
            forall|k: int| 0 <= k < i ==> a[k] == b[k],
        decreases a.len() - i,
    {
        if a[i] != b[i] {
            return false;
        }
        i = i + 1;
    }
    assert(a@ =~= b@);
    true
}

/// Whether two vectors of texts hold the same characters, element by element.
pub fn same_texts(a: &Vec<String>, b: &Vec<String>) -> (r: bool)
    ensures
        r == (a.len() == b.len() && forall|k: int| 0 <= k < a.len() ==> (#[trigger] a[k])@ == b[k]@),
{
    if a.len() != b.len() {
        return false;
    }
    let mut i: usize = 0;
    while i < a.len()
        invariant
            i <= a.len(),
            a.len() == b.len(),
            forall|k: int| 0 <= k < i ==> (#[trigger] a[k])@ == b[k]@,
        decreases a.len() - i,
    {
        if a[i] != b[i] {
            return false;
        }
        i = i + 1;
    }
    true
}

/// Whether two flag cubes are equal.
pub fn same_flags(a: &Cube<bool>, b: &Cube<bool>) -> (r: bool)
    ensures
        r == (a.shape() == b.shape() && a.data@ == b.data@),
{
    if a.dim0 != b.dim0 || a.dim1 != b.dim1 || a.dim2 != b.dim2 || a.data.len() != b.data.len() {
        return false;
    }
    let mut i: usize = 0;
    while i < a.data.len()
        invariant
            i <= a.data.len(),
            a.data.len() == b.data.len(),
            forall|k: int| 0 <= k < i ==> a.data[k] == b.data[k],
        decreases a.data.len() - i,
    {
        if a.data[i] != b.data[i] {
            return false;
        }
        i = i + 1;
    }
    assert(a.data@ =~= b.data@);
    true
}

/// The exact part of the equality of catalog entries: the same kind, id,
/// kind tag, frame and provenance, the same optional values present, and
/// position arrays of the same lengths.
pub open spec fn entry_agree(a: CatTypes, b: CatTypes) -> bool {
    match (a, b) {
        (CatTypes::Unphased(x), CatTypes::Unphased(y)) => x.cat_id == y.cat_id && x.cat_type@ == y.cat_type@,
        (CatTypes::Sidereal(x), CatTypes::Sidereal(y)) => {
            &&& x.cat_id == y.cat_id && x.cat_type@ == y.cat_type@ && x.cat_frame@ == y.cat_frame@
            &&& texts_agree(x.info_source, y.info_source)
            &&& both_or_neither(x.cat_pm_ra, y.cat_pm_ra) && both_or_neither(x.cat_pm_dec, y.cat_pm_dec)
            &&& both_or_neither(x.cat_dist, y.cat_dist) && both_or_neither(x.cat_vrad, y.cat_vrad)
        },
        (CatTypes::Ephem(x), CatTypes::Ephem(y)) => {
            &&& x.cat_id == y.cat_id && x.cat_type@ == y.cat_type@ && x.cat_frame@ == y.cat_frame@
            &&& texts_agree(x.info_source, y.info_source)
            &&& x.cat_lon.len() == y.cat_lon.len() && x.cat_lat.len() == y.cat_lat.len()
            &&& match (x.cat_dist, y.cat_dist) {
                (Some(p), Some(q)) => p.len() == q.len(),
                (None, None) => true,
                _ => false,
            }
            &&& match (x.cat_vrad, y.cat_vrad) {
                (Some(p), Some(q)) => p.len() == q.len(),
                (None, None) => true,
                _ => false,
            }
        },
        _ => false,
    }
}

fn same_len_opt(a: &Option<Vec<u64>>, b: &Option<Vec<u64>>) -> (r: bool)
    ensures
        r == match (*a, *b) {
            (Some(p), Some(q)) => p.len() == q.len(),
            (None, None) => true,
            _ => false,
        },
{
    match (a, b) {
        (Some(p), Some(q)) => p.len() == q.len(),
        (None, None) => true,
        _ => false,
    }
}

/// Decides the exact part of the equality of two catalog entries.
pub fn entry_match(a: &CatTypes, b: &CatTypes) -> (r: bool)
    ensures
        r == entry_agree(*a, *b),
{
    match (a, b) {
        (CatTypes::Unphased(x), CatTypes::Unphased(y)) => x.cat_id == y.cat_id && same_text(&x.cat_type, &y.cat_type),
        (CatTypes::Sidereal(x), CatTypes::Sidereal(y)) => {
            x.cat_id == y.cat_id && same_text(&x.cat_type, &y.cat_type) && same_text(&x.cat_frame, &y.cat_frame)
                && same_opt_text(&x.info_source, &y.info_source)
                && x.cat_pm_ra.is_some() == y.cat_pm_ra.is_some()
                && x.cat_pm_dec.is_some() == y.cat_pm_dec.is_some()
                && x.cat_dist.is_some() == y.cat_dist.is_some()
                && x.cat_vrad.is_some() == y.cat_vrad.is_some()
        },
        (CatTypes::Ephem(x), CatTypes::Ephem(y)) => {
            x.cat_id == y.cat_id && same_text(&x.cat_type, &y.cat_type) && same_text(&x.cat_frame, &y.cat_frame)
                && same_opt_text(&x.info_source, &y.info_source)
                && x.cat_lon.len() == y.cat_lon.len() && x.cat_lat.len() == y.cat_lat.len()
                && same_len_opt(&x.cat_dist, &y.cat_dist) && same_len_opt(&x.cat_vrad, &y.cat_vrad)
        },
        _ => false,
    }
}

/// Whether entry `i` of `a` has an agreeing entry of the same name in `b`.
pub open spec fn has_partner(a: Catalog, b: Catalog, i: int) -> bool {
    exists|j: int| 0 <= j < b.entries.len() && (#[trigger] b.entries[j]).0@ == a.entries[i].0@
        && entry_agree(a.entries[i].1, b.entries[j].1)
}

/// The exact part of the equality of catalogs, as maps from names to entries.
pub open spec fn catalog_agree(a: Catalog, b: Catalog) -> bool {
    a.entries.len() == b.entries.len() && forall|i: int| 0 <= i < a.entries.len() ==> #[trigger] has_partner(a, b, i)
}

/// The position of an entry of `b` named `name`.
fn find_name(b: &Catalog, name: &String) -> (r: Option<usize>)
    ensures
        r matches Some(j) ==> j < b.entries.len() && b.entries[j as int].0@ == name@,
        r is None ==> forall|j: int| 0 <= j < b.entries.len() ==> (#[trigger] b.entries[j]).0@ != name@,
{
    let mut j: usize = 0;
    while j < b.entries.len()
        invariant
            j <= b.entries.len(),
            forall|k: int| 0 <= k < j ==> (#[trigger] b.entries[k]).0@ != name@,
        decreases b.entries.len() - j,
    {
        if b.entries[j].0 == *name {
            return Some(j);
        }
        j = j + 1;
    }
    None
}

/// Decides the exact part of the equality of two catalogs whose names are
/// distinct.
pub fn catalog_match(a: &Catalog, b: &Catalog) -> (r: bool)
    requires
        b.wf(),
    ensures
        r == catalog_agree(*a, *b),
{
    if a.entries.len() != b.entries.len() {
        return false;
    }
    let mut i: usize = 0;
    while i < a.entries.len()
        invariant
            i <= a.entries.len(),
            a.entries.len() == b.entries.len(),
            b.wf(),
            forall|k: int| 0 <= k < i ==> #[trigger] has_partner(*a, *b, k),
        decreases a.entries.len() - i,
    {
        match find_name(b, &a.entries[i].0) {
            Some(j) => {
                if !entry_match(&a.entries[i].1, &b.entries[j].1) {
                    proof {
                        if has_partner(*a, *b, i as int) {
                            let jj = choose|jj: int| 0 <= jj < b.entries.len() && (#[trigger] b.entries[jj]).0@ == a.entries[i as int].0@
                                && entry_agree(a.entries[i as int].1, b.entries[jj].1);
                            if jj != j {
                                if jj < j {
                                    assert(b.entries[jj].0@ != b.entries[j as int].0@);
                                } else {
                                    assert(b.entries[j as int].0@ != b.entries[jj].0@);
                                }
                            }
                        }
                    }
                    return false;
                }
                assert(has_partner(*a, *b, i as int)) by {
                    assert(b.entries[j as int].0@ == a.entries[i as int].0@);
                }
            },
            None => {
                assert(!has_partner(*a, *b, i as int));
                return false;
            },
        }
        i = i + 1;
    }
    true
}

/// The exact part of the equality of per-axis arrays: integer and text arrays
/// equal, floating-point arrays present in both or neither, catalogs agreeing.
pub open spec fn arrays_agree(a: ArrayMetaData, b: ArrayMetaData) -> bool {
    &&& a.spw_array@ == b.spw_array@
    &&& a.ant_1_array@ == b.ant_1_array@ && a.ant_2_array@ == b.ant_2_array@
    &&& a.baseline_array@ == b.baseline_array@
    &&& a.spw_id_array@ == b.spw_id_array@
    &&& a.polarization_array@ == b.polarization_array@
    &&& a.antenna_numbers@ == b.antenna_numbers@
    &&& a.antenna_names.len() == b.antenna_names.len()
    &&& (forall|k: int| 0 <= k < a.antenna_names.len() ==> (#[trigger] a.antenna_names[k])@ == b.antenna_names[k]@)
    &&& both_or_neither(a.eq_coeffs, b.eq_coeffs)
    &&& both_or_neither(a.antenna_diameters, b.antenna_diameters)
    &&& catalog_agree(a.phase_center_catalog, b.phase_center_catalog)
    &&& a.phase_center_id_array@ == b.phase_center_id_array@
}

/// Decides the exact part of the equality of two sets of per-axis arrays.
pub fn arrays_match(a: &ArrayMetaData, b: &ArrayMetaData) -> (r: bool)
    requires
        b.phase_center_catalog.wf(),
    ensures
        r == arrays_agree(*a, *b),
{
    same_u32s(&a.spw_array, &b.spw_array)
        && same_u32s(&a.ant_1_array, &b.ant_1_array) && same_u32s(&a.ant_2_array, &b.ant_2_array)
        && same_u32s(&a.baseline_array, &b.baseline_array)
        && same_u32s(&a.spw_id_array, &b.spw_id_array)
        && same_i8s(&a.polarization_array, &b.polarization_array)
        && same_u32s(&a.antenna_numbers, &b.antenna_numbers)
        && same_texts(&a.antenna_names, &b.antenna_names)
        && a.eq_coeffs.is_some() == b.eq_coeffs.is_some()
        && a.antenna_diameters.is_some() == b.antenna_diameters.is_some()
        && catalog_match(&a.phase_center_catalog, &b.phase_center_catalog)
        && same_u32s(&a.phase_center_id_array, &b.phase_center_id_array)
}

/// The exact part of the equality of datasets: descriptions and arrays
/// agreeing, the same cubes present, the flag cubes equal.
pub open spec fn uvdata_agree(a: UVData, b: UVData) -> bool {
    &&& meta_agree(a.meta, b.meta)
    &&& arrays_agree(a.meta_arrays, b.meta_arrays)
    &&& both_or_neither(a.data_array, b.data_array)
    &&& both_or_neither(a.nsample_array, b.nsample_array)
    &&& match (a.flag_array, b.flag_array) {
        (Some(x), Some(y)) => x.shape() == y.shape() && x.data@ == y.data@,
        (None, None) => true,
        _ => false,
    }
}

/// Decides the exact part of the equality of two datasets.
pub fn uvdata_match(a: &UVData, b: &UVData) -> (r: bool)
    requires
        b.meta_arrays.phase_center_catalog.wf(),
    ensures
        r == uvdata_agree(*a, *b),
{
    let flags = match (&a.flag_array, &b.flag_array) {
        (Some(x), Some(y)) => same_flags(x, y),
        (None, None) => true,
        _ => false,
    };
    meta_match(&a.meta, &b.meta) && arrays_match(&a.meta_arrays, &b.meta_arrays)
        && a.data_array.is_some() == b.data_array.is_some()
        && a.nsample_array.is_some() == b.nsample_array.is_some()
        && flags
}

} // verus!
