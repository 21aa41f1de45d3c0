use vstd::prelude::*;

use crate::catalog::{is_unphased, zenith_catalog, zenith_name, Catalog};
use crate::enums::{BltOrder, BltOrders, EqConvention, Orientation, PhaseType, VisUnit};
use crate::model::{repeat, DoubleBits, SingleBits};
use crate::text::{decimal, decimal_of};

verus! {

/// The scalar description of a dataset.
#[derive(Debug, Clone, PartialEq, Eq)]
pub struct UVMeta {
    pub nbls: u32,
    pub nblts: u32,
    pub nspws: u32,
    pub npols: u8,
    pub ntimes: u32,
    pub nfreqs: u32,
    pub nphases: u32,
    pub nants_data: u32,
    pub blt_order: BltOrder,
    pub vis_units: VisUnit,
    pub nants_telescope: u32,
    pub phase_type: PhaseType,
    pub x_orientation: Orientation,
    pub instrument: String,
    pub telescope_name: String,
    /// Earth-centred Cartesian position in metres.
    pub telescope_location: [DoubleBits; 3],
    pub object_name: String,
    pub eq_coeffs_convention: EqConvention,
    pub dut1: Option<SingleBits>,
    pub gst0: Option<SingleBits>,
    pub rdate: Option<String>,
    pub earth_omega: Option<SingleBits>,
    pub timesys: Option<String>,
    pub uvplane_reference_time: Option<i32>,
    pub history: String,
}

/// What a freshly built description holds.
pub open spec fn is_default_meta(m: UVMeta) -> bool {
    &&& m.nbls == 0 && m.nblts == 0 && m.nspws == 0 && m.npols == 0
    &&& m.ntimes == 0 && m.nfreqs == 0 && m.nants_data == 0 && m.nants_telescope == 0
    &&& m.nphases == 1
    &&& m.blt_order == BltOrder { major: BltOrders::Unknown, minor: BltOrders::Unknown }
    &&& m.vis_units == VisUnit::Uncalib
    &&& m.phase_type == PhaseType::Drift
    &&& m.x_orientation == Orientation::Unknown
    &&& m.eq_coeffs_convention == EqConvention::Unknown
    &&& m.instrument@ == "Unknown"@ && m.telescope_name@ == "Unknown"@ && m.object_name@ == "Unknown"@
    &&& m.telescope_location@ == seq![0u64, 0u64, 0u64]
    &&& m.dut1 is None && m.gst0 is None && m.rdate is None && m.earth_omega is None
    &&& m.timesys is None && m.uvplane_reference_time is None
    &&& m.history@ == Seq::<char>::empty()
}

impl UVMeta {
    /// A description with every count zero but one phase, unknown enums,
    /// the origin as location and an empty history.
    pub fn new() -> (r: UVMeta)
        ensures
            is_default_meta(r),
    {
        UVMeta {
            nbls: 0,
            nblts: 0,
            npols: 0,
            nspws: 0,
            ntimes: 0,
            nfreqs: 0,
            nphases: 1,
            nants_data: 0,
            nants_telescope: 0,
            blt_order: BltOrder::unknown(),
            x_orientation: Orientation::Unknown,
            phase_type: PhaseType::Drift,
            vis_units: VisUnit::Uncalib,
            instrument: String::from_str("Unknown"),
            telescope_name: String::from_str("Unknown"),
            telescope_location: [0u64, 0u64, 0u64],
            object_name: String::from_str("Unknown"),
            eq_coeffs_convention: EqConvention::Unknown,
            dut1: None,
            gst0: None,
            rdate: None,
            earth_omega: None,
            timesys: None,
            uvplane_reference_time: None,
            history: String::new(),
        }
    }
}

impl Default for UVMeta {
    fn default() -> (r: UVMeta)
        ensures
            is_default_meta(r),
    {
        UVMeta::new()
    }
}

/// The per-axis arrays of a dataset.
#[derive(Debug, Clone, PartialEq, Eq)]
pub struct ArrayMetaData {
    pub spw_array: Vec<u32>,
    /// One (u, v, w) row per baseline-time sample.
    pub uvw_array: Vec<[DoubleBits; 3]>,
    pub time_array: Vec<DoubleBits>,
    pub lst_array: Vec<DoubleBits>,
    pub ant_1_array: Vec<u32>,
    pub ant_2_array: Vec<u32>,
    pub baseline_array: Vec<u32>,
    pub freq_array: Vec<DoubleBits>,
    pub spw_id_array: Vec<u32>,
    pub polarization_array: Vec<i8>,
    pub integration_time: Vec<DoubleBits>,
    pub channel_width: Vec<DoubleBits>,
    pub antenna_numbers: Vec<u32>,
    pub antenna_names: Vec<String>,
    /// One position row per antenna, relative to the telescope.
    pub antenna_positions: Vec<[DoubleBits; 3]>,
    /// One row per antenna.
    pub eq_coeffs: Option<Vec<Vec<SingleBits>>>,
    pub antenna_diameters: Option<Vec<SingleBits>>,
    pub phase_center_catalog: Catalog,
    pub phase_center_id_array: Vec<u32>,
}

pub open spec fn all_zero<T>(v: Seq<T>, z: T, n: nat) -> bool {
    v.len() == n && forall|i: int| 0 <= i < n ==> #[trigger] v[i] == z
}

/// The arrays that `ArrayMetaData::new` builds for a description: zero-filled
/// to the lengths its counts give, antennas named by their index, and one
/// unphased zenith entry per phase.
pub open spec fn is_fresh_arrays(a: ArrayMetaData, m: UVMeta) -> bool {
    let nblts = m.nblts as nat;
    let nants = m.nants_telescope as nat;
    let nfreqs = m.nfreqs as nat;
    &&& all_zero(a.spw_array@, 0u32, m.nspws as nat)
    &&& all_zero(a.uvw_array@, [0u64, 0u64, 0u64], nblts)
    &&& all_zero(a.time_array@, 0u64, nblts)
    &&& all_zero(a.lst_array@, 0u64, nblts)
    &&& all_zero(a.ant_1_array@, 0u32, nblts)
    &&& all_zero(a.ant_2_array@, 0u32, nblts)
    &&& all_zero(a.baseline_array@, 0u32, nblts)
    &&& all_zero(a.freq_array@, 0u64, nfreqs)
    &&& all_zero(a.spw_id_array@, 0u32, nfreqs)
    &&& all_zero(a.polarization_array@, 0i8, m.npols as nat)
    &&& all_zero(a.integration_time@, 0u64, nblts)
    &&& all_zero(a.channel_width@, 0u64, nfreqs)
    &&& all_zero(a.antenna_numbers@, 0u32, nants)
    &&& a.antenna_names.len() == nants
    &&& (forall|i: int| 0 <= i < nants ==> (#[trigger] a.antenna_names[i])@ == decimal_of(i as nat))
    &&& all_zero(a.antenna_positions@, [0u64, 0u64, 0u64], nants)
    &&& a.eq_coeffs is None
    &&& a.antenna_diameters is None
    &&& a.phase_center_catalog.wf()
    &&& a.phase_center_catalog.len() == m.nphases
    &&& (forall|i: int| 0 <= i < m.nphases ==> (#[trigger] a.phase_center_catalog.entries[i]).0@ == zenith_name(i as nat)
            && is_unphased(a.phase_center_catalog.entries[i].1, i as u32))
    &&& all_zero(a.phase_center_id_array@, 0u32, nblts)
}

fn index_names(n: u32) -> (r: Vec<String>)
    ensures
        r.len() == n,
        forall|i: int| 0 <= i < n ==> (#[trigger] r[i])@ == decimal_of(i as nat),
{
    let mut r: Vec<String> = Vec::new();
    let mut i: u32 = 0;
    while i < n
        invariant
            i <= n,
            r.len() == i,
            forall|j: int| 0 <= j < i ==> (#[trigger] r[j])@ == decimal_of(j as nat),
        decreases n - i,
    {
        r.push(decimal(i));
        i = i + 1;
    }
    r
}

impl ArrayMetaData {
    /// Zero-filled arrays sized by the counts of `meta`, antennas named
    /// `"0"`, `"1"`, ..., and a catalog with one unphased `"zenith_<i>"` entry
    /// of id `i` per phase.
    pub fn new(meta: &UVMeta) -> (r: ArrayMetaData)
        ensures
            is_fresh_arrays(r, *meta),
    {
        let nblts = meta.nblts as usize;
        let nfreqs = meta.nfreqs as usize;
        let nants = meta.nants_telescope as usize;
        let zero3: [DoubleBits; 3] = [0u64, 0u64, 0u64];
        ArrayMetaData {
            spw_array: repeat(0u32, meta.nspws as usize),
            uvw_array: repeat(zero3, nblts),
            time_array: repeat(0u64, nblts),
            lst_array: repeat(0u64, nblts),
            ant_1_array: repeat(0u32, nblts),
            ant_2_array: repeat(0u32, nblts),
            baseline_array: repeat(0u32, nblts),
            freq_array: repeat(0u64, nfreqs),
            spw_id_array: repeat(0u32, nfreqs),
            polarization_array: repeat(0i8, meta.npols as usize),
            integration_time: repeat(0u64, nblts),
            channel_width: repeat(0u64, nfreqs),
            antenna_numbers: repeat(0u32, nants),
            antenna_names: index_names(meta.nants_telescope),
            antenna_positions: repeat(zero3, nants),
            eq_coeffs: None,
            antenna_diameters: None,
            phase_center_catalog: zenith_catalog(meta.nphases),
            phase_center_id_array: repeat(0u32, nblts),
        }
    }
}

/// A freshly built description has its documented defaults, and the arrays
/// built from it are all empty, with a catalog of one unphased `"zenith_0"`
/// entry of id 0.
pub proof fn lemma_default_arrays(m: UVMeta, a: ArrayMetaData)
    requires
        is_default_meta(m),
        is_fresh_arrays(a, m),
    ensures
        a.spw_array.len() == 0 && a.uvw_array.len() == 0 && a.time_array.len() == 0,
        a.lst_array.len() == 0 && a.ant_1_array.len() == 0 && a.ant_2_array.len() == 0,
        a.baseline_array.len() == 0 && a.freq_array.len() == 0 && a.spw_id_array.len() == 0,
        a.polarization_array.len() == 0 && a.integration_time.len() == 0,
        a.channel_width.len() == 0 && a.antenna_numbers.len() == 0 && a.antenna_names.len() == 0,
        a.antenna_positions.len() == 0 && a.phase_center_id_array.len() == 0,
        a.phase_center_catalog.len() == 1,
        a.phase_center_catalog.entries[0].0@ == "zenith_0"@,
        is_unphased(a.phase_center_catalog.entries[0].1, 0),
{
    reveal_strlit("zenith_");
    reveal_strlit("zenith_0");
    assert(decimal_of(0) == seq!['0']);
    assert(zenith_name(0) =~= "zenith_0"@);
}

} // verus!
