use vstd::prelude::*;

use crate::baseline::{antnums_to_baseline, baseline_of, count_distinct};
use crate::catalog::{built_from, catalog_from_entries, CatTypes, Catalog, SiderealVal, UnphasedVal};
use crate::enums::{
    blt_order_from_text, eq_convention_from_text, orientation_from_text, parse_error_text,
    phase_type_from_text, vis_unit_from_text, BltOrder, EqConvention, Orientation, PhaseType,
    VisUnit,
};
use crate::history::{stamp_history, stamped};
use crate::meta::{ArrayMetaData, UVMeta};
use crate::model::{repeat, ComplexBits, Cube, DoubleBits, SingleBits};
use crate::shape::{
    broadcast, broadcast_to, is_squeezed_cube, squeeze_cube, squeeze_rows, squeezed_shape, squeezed_rows,
    ShapeError, StoredArray,
};
use crate::text::{is_plain, lower_of, normalized, to_lower};
use crate::uvdata::UVData;

verus! {

/// The datasets of a file that an error can name.
#[derive(Debug, Clone, Copy, PartialEq, Eq, Structural)]
pub enum Field {
    Instrument,
    TelescopeName,
    History,
    NantsData,
    NantsTelescope,
    Nblts,
    Nspws,
    Npols,
    Ntimes,
    Nfreqs,
    VisUnits,
    XOrientation,
    BltOrder,
    EqCoeffsConvention,
    PhaseType,
    PhaseCenterRa,
    PhaseCenterDec,
    PhaseCenterEpoch,
    FreqArray,
    ChannelWidth,
    Visdata,
    Flags,
    Nsamples,
}

/// The name of a field's dataset in a file.
pub open spec fn field_name(f: Field) -> Seq<char> {
    match f {
        Field::Instrument => "instrument"@,
        Field::TelescopeName => "telescope_name"@,
        Field::History => "history"@,
        Field::NantsData => "Nants_data"@,
        Field::NantsTelescope => "Nants_telescope"@,
        Field::Nblts => "Nblts"@,
        Field::Nspws => "Nspws"@,
        Field::Npols => "Npols"@,
        Field::Ntimes => "Ntimes"@,
        Field::Nfreqs => "Nfreqs"@,
        Field::VisUnits => "vis_units"@,
        Field::XOrientation => "x_orientation"@,
        Field::BltOrder => "blt_order"@,
        Field::EqCoeffsConvention => "eq_coeffs_convention"@,
        Field::PhaseType => "phase_type"@,
        Field::PhaseCenterRa => "phase_center_ra"@,
        Field::PhaseCenterDec => "phase_center_dec"@,
        Field::PhaseCenterEpoch => "phase_center_epoch"@,
        Field::FreqArray => "freq_array"@,
        Field::ChannelWidth => "channel_width"@,
        Field::Visdata => "visdata"@,
        Field::Flags => "flags"@,
        Field::Nsamples => "nsamples"@,
    }
}

impl Field {
    /// The name of the dataset in a file.
    pub fn name(&self) -> (r: &'static str)
        ensures
            r@ == field_name(*self),
    {
        match self {
            Field::Instrument => "instrument",
            Field::TelescopeName => "telescope_name",
            Field::History => "history",
            Field::NantsData => "Nants_data",
            Field::NantsTelescope => "Nants_telescope",
            Field::Nblts => "Nblts",
            Field::Nspws => "Nspws",
            Field::Npols => "Npols",
            Field::Ntimes => "Ntimes",
            Field::Nfreqs => "Nfreqs",
            Field::VisUnits => "vis_units",
            Field::XOrientation => "x_orientation",
            Field::BltOrder => "blt_order",
            Field::EqCoeffsConvention => "eq_coeffs_convention",
            Field::PhaseType => "phase_type",
            Field::PhaseCenterRa => "phase_center_ra",
            Field::PhaseCenterDec => "phase_center_dec",
            Field::PhaseCenterEpoch => "phase_center_epoch",
            Field::FreqArray => "freq_array",
            Field::ChannelWidth => "channel_width",
            Field::Visdata => "visdata",
            Field::Flags => "flags",
            Field::Nsamples => "nsamples",
        }
    }
}

/// Why a file could not be read, or a dataset not written.
#[derive(Debug, Clone, PartialEq, Eq)]
pub enum FormatError {
    /// A required dataset is absent.
    Missing(Field),
    /// A keyword dataset holds text that is no keyword; the parser's message.
    Keyword(Field, String),
    /// An array has a number of dimensions that the format does not allow.
    Rank(Field, usize),
    /// An array's elements do not match its shape.
    Inconsistent(Field),
    /// The antenna arrays differ in length, or hold numbers whose baseline
    /// numbers do not fit 32 bits.
    AntennaRange,
    /// Only a dataset with its data cubes can be written.
    MetadataOnly,
    /// The phase-center catalog does not fit the number of phases.
    InvalidCatalog,
}

/// The header of a file, as plain values: each optional dataset is `None`
/// when the file lacks it. The telescope location is the Cartesian position
/// derived from the stored latitude, longitude and altitude.
#[derive(Debug, Clone, PartialEq, Eq)]
pub struct StoredHeader {
    pub telescope_location: [DoubleBits; 3],
    pub nblts: Option<u32>,
    pub nspws: Option<u32>,
    pub npols: Option<u8>,
    pub ntimes: Option<u32>,
    pub nfreqs: Option<u32>,
    pub nants_data: Option<u32>,
    pub nants_telescope: Option<u32>,
    pub nphase: Option<u32>,
    pub instrument: Option<String>,
    pub telescope_name: Option<String>,
    pub object_name: Option<String>,
    pub history: Option<String>,
    pub vis_units: Option<String>,
    pub x_orientation: Option<String>,
    pub blt_order: Option<String>,
    pub eq_coeffs_convention: Option<String>,
    pub phase_type: Option<String>,
    pub dut1: Option<SingleBits>,
    pub gst0: Option<SingleBits>,
    pub earth_omega: Option<SingleBits>,
    pub rdate: Option<String>,
    pub timesys: Option<String>,
    pub uvplane_reference_time: Option<i32>,
    pub phase_center_frame: Option<String>,
    pub phase_center_ra: Option<DoubleBits>,
    pub phase_center_dec: Option<DoubleBits>,
    pub phase_center_epoch: Option<DoubleBits>,
}

/// The array datasets of a file's header.
#[derive(Debug, Clone, PartialEq, Eq)]
pub struct StoredArrays {
    pub spw_array: Vec<u32>,
    pub uvw_array: Vec<[DoubleBits; 3]>,
    pub time_array: Vec<DoubleBits>,
    pub lst_array: Vec<DoubleBits>,
    pub ant_1_array: Vec<u32>,
    pub ant_2_array: Vec<u32>,
    pub freq_array: StoredArray<DoubleBits>,
    pub flex_spw_id_array: Option<Vec<u32>>,
    pub polarization_array: Vec<i8>,
    pub integration_time: Vec<DoubleBits>,
    pub channel_width: StoredArray<DoubleBits>,
    pub antenna_numbers: Vec<u32>,
    pub antenna_names: Vec<String>,
    pub antenna_positions: Vec<[DoubleBits; 3]>,
    pub eq_coeffs: Option<Vec<Vec<SingleBits>>>,
    pub antenna_diameters: Option<Vec<SingleBits>>,
    /// The members of the catalog group, decoded, when the group exists.
    pub phase_center_catalog: Option<Vec<(String, CatTypes)>>,
    pub phase_center_id_array: Option<Vec<u32>>,
}

/// The data group of a file.
#[derive(Debug, Clone, PartialEq, Eq)]
pub struct StoredData {
    pub visdata: StoredArray<ComplexBits>,
    pub flags: StoredArray<bool>,
    pub nsamples: StoredArray<SingleBits>,
}

/// A whole file as plain values. `data` is `None` when the data group was not
/// read or is not to be written.
#[derive(Debug, Clone, PartialEq, Eq)]
pub struct StoredFile {
    pub header: StoredHeader,
    pub arrays: StoredArrays,
    pub data: Option<StoredData>,
}

// ---------------------------------------------------------------- header

/// The first required header dataset that the file lacks.
pub open spec fn first_missing(h: StoredHeader) -> Option<Field> {
    if h.instrument is None {
        Some(Field::Instrument)
    } else if h.telescope_name is None {
        Some(Field::TelescopeName)
    } else if h.history is None {
        Some(Field::History)
    } else if h.nants_data is None {
        Some(Field::NantsData)
    } else if h.nants_telescope is None {
        Some(Field::NantsTelescope)
    } else if h.nblts is None {
        Some(Field::Nblts)
    } else if h.nspws is None {
        Some(Field::Nspws)
    } else if h.npols is None {
        Some(Field::Npols)
    } else if h.ntimes is None {
        Some(Field::Ntimes)
    } else if h.nfreqs is None {
        Some(Field::Nfreqs)
    } else {
        None
    }
}

/// The units a file states: absent means uncalibrated.
pub open spec fn stored_vis_units(s: Option<String>) -> Option<VisUnit> {
    match s {
        None => Some(VisUnit::Uncalib),
        Some(t) => vis_unit_from_text(normalized(t@)),
    }
}

pub open spec fn stored_orientation(s: Option<String>) -> Option<Orientation> {
    match s {
        None => Some(Orientation::Unknown),
        Some(t) => orientation_from_text(normalized(t@)),
    }
}

pub open spec fn stored_blt_order(s: Option<String>) -> Option<BltOrder> {
    match s {
        None => Some(BltOrder { major: crate::enums::BltOrders::Unknown, minor: crate::enums::BltOrders::Unknown }),
        Some(t) => blt_order_from_text(normalized(t@)),
    }
}

pub open spec fn stored_eq_convention(s: Option<String>) -> Option<EqConvention> {
    match s {
        None => Some(EqConvention::Unknown),
        Some(t) => eq_convention_from_text(normalized(t@)),
    }
}

/// The phase type a file states: absent means drift.
pub open spec fn stored_phase_type(s: Option<String>) -> Option<PhaseType> {
    match s {
        None => Some(PhaseType::Drift),
        Some(t) => phase_type_from_text(normalized(t@)),
    }
}

/// The first keyword dataset whose text is no keyword.
pub open spec fn first_bad_keyword(h: StoredHeader) -> Option<Field> {
    if stored_vis_units(h.vis_units) is None {
        Some(Field::VisUnits)
    } else if stored_orientation(h.x_orientation) is None {
        Some(Field::XOrientation)
    } else if stored_blt_order(h.blt_order) is None {
        Some(Field::BltOrder)
    } else if stored_eq_convention(h.eq_coeffs_convention) is None {
        Some(Field::EqCoeffsConvention)
    } else if stored_phase_type(h.phase_type) is None {
        Some(Field::PhaseType)
    } else {
        None
    }
}

/// Whether a keyword text that is written plainly is its own normal form.
pub open spec fn keyword_normal(s: Option<String>) -> bool {
    s matches Some(t) ==> (is_plain(t@) ==> normalized(t@) == t@)
}

/// The plainly written keyword texts of a header are their own normal forms.
pub open spec fn keywords_normal(h: StoredHeader) -> bool {
    &&& keyword_normal(h.vis_units) && keyword_normal(h.x_orientation)
    &&& keyword_normal(h.blt_order) && keyword_normal(h.eq_coeffs_convention)
    &&& keyword_normal(h.phase_type)
}

/// The parser's message for a keyword dataset of `h` that does not parse.
pub open spec fn keyword_error(h: StoredHeader, f: Field) -> Seq<char> {
    match f {
        Field::VisUnits => parse_error_text("Unknown Visibility Unit: "@, h.vis_units->0@),
        Field::XOrientation => parse_error_text("Unknown Orientation: "@, h.x_orientation->0@),
        Field::BltOrder => parse_error_text("Unknown Blt Ordering: "@, h.blt_order->0@),
        Field::EqCoeffsConvention => parse_error_text("Unknown Equalization Convention: "@, h.eq_coeffs_convention->0@),
        Field::PhaseType => parse_error_text("Unknown phase type: "@, h.phase_type->0@),
        _ => Seq::empty(),
    }
}

/// The object name a file states, lower-cased; absent means `"unknown"`.
pub open spec fn stored_object_name(s: Option<String>) -> Seq<char> {
    match s {
        None => "unknown"@,
        Some(t) => lower_of(t@),
    }
}

/// What a description read from header `h` holds, with `nbls` distinct baselines.
pub open spec fn meta_read_from(m: UVMeta, h: StoredHeader, nbls: u32) -> bool {
    &&& m.nbls == nbls
    &&& m.nblts == h.nblts->0 && m.nspws == h.nspws->0 && m.npols == h.npols->0
    &&& m.ntimes == h.ntimes->0 && m.nfreqs == h.nfreqs->0
    &&& m.nants_data == h.nants_data->0 && m.nants_telescope == h.nants_telescope->0
    &&& m.nphases == (match h.nphase { Some(n) => n, None => 1u32 })
    &&& m.vis_units == stored_vis_units(h.vis_units)->0
    &&& m.x_orientation == stored_orientation(h.x_orientation)->0
    &&& m.blt_order == stored_blt_order(h.blt_order)->0
    &&& m.eq_coeffs_convention == stored_eq_convention(h.eq_coeffs_convention)->0
    &&& m.phase_type == stored_phase_type(h.phase_type)->0
    &&& m.instrument == h.instrument->0
    &&& m.telescope_name == h.telescope_name->0
    &&& m.telescope_location == h.telescope_location
    &&& m.object_name@ == stored_object_name(h.object_name)
    &&& m.dut1 == h.dut1 && m.gst0 == h.gst0 && m.earth_omega == h.earth_omega
    &&& m.rdate == h.rdate && m.timesys == h.timesys
    &&& m.uvplane_reference_time == h.uvplane_reference_time
    &&& m.history@ == stamped(h.history->0@)
}

fn read_keyword_vis_units(s: &Option<String>) -> (r: Result<VisUnit, FormatError>)
    ensures
        match stored_vis_units(*s) {
            Some(v) => r == Ok::<VisUnit, FormatError>(v),
            None => r matches Err(FormatError::Keyword(f, m)) && f == Field::VisUnits
                && m@ == parse_error_text("Unknown Visibility Unit: "@, s->0@),
        },
        keyword_normal(*s),
{
    match s {
        None => Ok(VisUnit::Uncalib),
        Some(t) => match VisUnit::parse(t.as_str()) {
            Ok(v) => Ok(v),
            Err(m) => Err(FormatError::Keyword(Field::VisUnits, m)),
        },
    }
}

fn read_keyword_orientation(s: &Option<String>) -> (r: Result<Orientation, FormatError>)
    ensures
        match stored_orientation(*s) {
            Some(v) => r == Ok::<Orientation, FormatError>(v),
            None => r matches Err(FormatError::Keyword(f, m)) && f == Field::XOrientation
                && m@ == parse_error_text("Unknown Orientation: "@, s->0@),
        },
        keyword_normal(*s),
{
    match s {
        None => Ok(Orientation::Unknown),
        Some(t) => match Orientation::parse(t.as_str()) {
            Ok(v) => Ok(v),
            Err(m) => Err(FormatError::Keyword(Field::XOrientation, m)),
        },
    }
}

fn read_keyword_blt_order(s: &Option<String>) -> (r: Result<BltOrder, FormatError>)
    ensures
        match stored_blt_order(*s) {
            Some(v) => r == Ok::<BltOrder, FormatError>(v),
            None => r matches Err(FormatError::Keyword(f, m)) && f == Field::BltOrder
                && m@ == parse_error_text("Unknown Blt Ordering: "@, s->0@),
        },
        keyword_normal(*s),
{
    match s {
        None => Ok(BltOrder::unknown()),
        Some(t) => match BltOrder::parse(t.as_str()) {
            Ok(v) => Ok(v),
            Err(m) => Err(FormatError::Keyword(Field::BltOrder, m)),
        },
    }
}

fn read_keyword_eq_convention(s: &Option<String>) -> (r: Result<EqConvention, FormatError>)
    ensures
        match stored_eq_convention(*s) {
            Some(v) => r == Ok::<EqConvention, FormatError>(v),
            None => r matches Err(FormatError::Keyword(f, m)) && f == Field::EqCoeffsConvention
                && m@ == parse_error_text("Unknown Equalization Convention: "@, s->0@),
        },
        keyword_normal(*s),
{
    match s {
        None => Ok(EqConvention::Unknown),
        Some(t) => match EqConvention::parse(t.as_str()) {
            Ok(v) => Ok(v),
            Err(m) => Err(FormatError::Keyword(Field::EqCoeffsConvention, m)),
        },
    }
}

fn read_keyword_phase_type(s: &Option<String>) -> (r: Result<PhaseType, FormatError>)
    ensures
        match stored_phase_type(*s) {
            Some(v) => r == Ok::<PhaseType, FormatError>(v),
            None => r matches Err(FormatError::Keyword(f, m)) && f == Field::PhaseType
                && m@ == parse_error_text("Unknown phase type: "@, s->0@),
        },
        keyword_normal(*s),
{
    match s {
        None => Ok(PhaseType::Drift),
        Some(t) => match PhaseType::parse(t.as_str()) {
            Ok(v) => Ok(v),
            Err(m) => Err(FormatError::Keyword(Field::PhaseType, m)),
        },
    }
}

fn required_text(v: &Option<String>, f: Field) -> (r: Result<String, FormatError>)
    ensures
        match *v {
            Some(x) => r == Ok::<String, FormatError>(x),
            None => r == Err::<String, FormatError>(FormatError::Missing(f)),
        },
{
    match v {
        Some(x) => Ok(x.clone()),
        None => Err(FormatError::Missing(f)),
    }
}

fn copy_text(v: &Option<String>) -> (r: Option<String>)
    ensures
        r == *v,
{
    match v {
        Some(x) => Some(x.clone()),
        None => None,
    }
}

fn required<T>(v: Option<T>, f: Field) -> (r: Result<T, FormatError>)
    ensures
        match v {
            Some(x) => r == Ok::<T, FormatError>(x),
            None => r == Err::<T, FormatError>(FormatError::Missing(f)),
        },
{
    match v {
        Some(x) => Ok(x),
        None => Err(FormatError::Missing(f)),
    }
}

/// Reads the description from a file's header: required datasets must be
/// present, keywords must parse (absent ones take their defaults), the object
/// name is lower-cased and the history stamped. `nbls` is the number of
/// distinct baselines, which the header's own count is not trusted for.
pub fn meta_from_header(h: &StoredHeader, nbls: u32) -> (r: Result<UVMeta, FormatError>)
    ensures
        match first_missing(*h) {
            Some(f) => r == Err::<UVMeta, FormatError>(FormatError::Missing(f)),
            None => match first_bad_keyword(*h) {
                Some(f) => r matches Err(FormatError::Keyword(g, m)) && g == f && m@ == keyword_error(*h, f),
                None => r matches Ok(m) && meta_read_from(m, *h, nbls),
            },
        },
        keywords_normal(*h),
{
    let vis_units = read_keyword_vis_units(&h.vis_units);
    let x_orientation = read_keyword_orientation(&h.x_orientation);
    let blt_order = read_keyword_blt_order(&h.blt_order);
    let eq_coeffs_convention = read_keyword_eq_convention(&h.eq_coeffs_convention);
    let phase_type = read_keyword_phase_type(&h.phase_type);
    let instrument = required_text(&h.instrument, Field::Instrument)?;
    let telescope_name = required_text(&h.telescope_name, Field::TelescopeName)?;
    let stored_history = required_text(&h.history, Field::History)?;
    let nants_data = required(h.nants_data, Field::NantsData)?;
    let nants_telescope = required(h.nants_telescope, Field::NantsTelescope)?;
    let nblts = required(h.nblts, Field::Nblts)?;
    let nspws = required(h.nspws, Field::Nspws)?;
    let npols = required(h.npols, Field::Npols)?;
    let ntimes = required(h.ntimes, Field::Ntimes)?;
    let nfreqs = required(h.nfreqs, Field::Nfreqs)?;
    let vis_units = vis_units?;
    let x_orientation = x_orientation?;
    let blt_order = blt_order?;
    let eq_coeffs_convention = eq_coeffs_convention?;
    let phase_type = phase_type?;
    let object_name = match &h.object_name {
        Some(t) => to_lower(t.as_str()),
        None => String::from_str("unknown"),
    };
    let history = stamp_history(stored_history.as_str());
    let nphases: u32 = match h.nphase {
        Some(n) => n,
        None => 1,
    };
    Ok(UVMeta {
        nbls,
        nblts,
        nspws,
        npols,
        ntimes,
        nfreqs,
        nphases,
        nants_data,
        blt_order,
        vis_units,
        nants_telescope,
        phase_type,
        x_orientation,
        instrument,
        telescope_name,
        telescope_location: h.telescope_location,
        object_name,
        eq_coeffs_convention,
        dut1: h.dut1,
        gst0: h.gst0,
        rdate: copy_text(&h.rdate),
        earth_omega: h.earth_omega,
        timesys: copy_text(&h.timesys),
        uvplane_reference_time: h.uvplane_reference_time,
        history,
    })
}

// ---------------------------------------------------------------- catalog

/// Name of the entry of a file without a catalog and without phasing.
pub open spec fn zenith() -> Seq<char> {
    "zenith"@
}

/// The frame a single-phase file states, lower-cased; absent means `"unknown"`.
pub open spec fn stored_frame(s: Option<String>) -> Seq<char> {
    match s {
        None => "unknown"@,
        Some(t) => lower_of(t@),
    }
}

/// The first phase-center dataset that a phased file without catalog lacks.
pub open spec fn legacy_missing(h: StoredHeader, pt: PhaseType) -> Option<Field> {
    if pt != PhaseType::Phased {
        None
    } else if h.phase_center_ra is None {
        Some(Field::PhaseCenterRa)
    } else if h.phase_center_dec is None {
        Some(Field::PhaseCenterDec)
    } else if h.phase_center_epoch is None {
        Some(Field::PhaseCenterEpoch)
    } else {
        None
    }
}

/// The catalog of a file that has no catalog group: one unphased `"zenith"`
/// entry of id 0 when it drifts; one sidereal entry of id 0 named after the
/// object, at the stored right ascension (longitude) and declination
/// (latitude), marked as coming from `"UVData"`, when it is phased; none
/// otherwise.
pub open spec fn is_legacy_catalog(c: Catalog, h: StoredHeader, pt: PhaseType, object_name: Seq<char>) -> bool {
    &&& c.wf()
    &&& match pt {
        PhaseType::Drift => c.len() == 1 && c.entries[0].0@ == zenith()
            && crate::catalog::is_unphased(c.entries[0].1, 0),
        PhaseType::Phased => c.len() == 1 && c.entries[0].0@ == object_name
            && is_legacy_sidereal(c.entries[0].1, h),
        PhaseType::Multi => c.len() == 0,
    }
}

/// The sidereal entry that a phased file without catalog describes.
pub open spec fn is_legacy_sidereal(v: CatTypes, h: StoredHeader) -> bool {
    &&& v matches CatTypes::Sidereal(sv)
    &&& sv.cat_id == 0
    &&& sv.cat_type@ == "sidereal"@
    &&& sv.cat_lon == h.phase_center_ra->0
    &&& sv.cat_lat == h.phase_center_dec->0
    &&& sv.cat_frame@ == stored_frame(h.phase_center_frame)
    &&& sv.cat_epoch == h.phase_center_epoch->0
    &&& sv.cat_pm_ra is None && sv.cat_pm_dec is None
    &&& sv.cat_dist is None && sv.cat_vrad is None
    &&& sv.info_source matches Some(src) && src@ == "UVData"@
}

/// The catalog of a file without catalog group, derived from its phase type
/// and phase-center datasets.
pub fn legacy_catalog(h: &StoredHeader, pt: PhaseType, object_name: &String) -> (r: Result<Catalog, FormatError>)
    ensures
        match legacy_missing(*h, pt) {
            Some(f) => r == Err::<Catalog, FormatError>(FormatError::Missing(f)),
            None => r matches Ok(c) && is_legacy_catalog(c, *h, pt, object_name@),
        },
{
    let mut cat = Catalog::new();
    match pt {
        PhaseType::Drift => {
            let v = CatTypes::Unphased(UnphasedVal { cat_id: 0, cat_type: String::from_str("unphased") });
            cat.insert(String::from_str("zenith"), v);
            assert(cat.entries[0].0@ == zenith());
        },
        PhaseType::Phased => {
            let ra = required(h.phase_center_ra, Field::PhaseCenterRa)?;
            let dec = required(h.phase_center_dec, Field::PhaseCenterDec)?;
            let epoch = required(h.phase_center_epoch, Field::PhaseCenterEpoch)?;
            let frame = match &h.phase_center_frame {
                Some(t) => to_lower(t.as_str()),
                None => String::from_str("unknown"),
            };
            let v = CatTypes::Sidereal(SiderealVal {
                cat_id: 0,
                cat_type: String::from_str("sidereal"),
                cat_lon: ra,
                cat_lat: dec,
                cat_frame: frame,
                cat_epoch: epoch,
                cat_pm_ra: None,
                cat_pm_dec: None,
                cat_dist: None,
                cat_vrad: None,
                info_source: Some(String::from_str("UVData")),
            });
            cat.insert(object_name.clone(), v);
        },
        PhaseType::Multi => {},
    }
    Ok(cat)
}

// ---------------------------------------------------------------- whole file

/// Whether the antenna arrays pair up and every pair has a baseline number.
pub open spec fn ants_ok(a: StoredArrays) -> bool {
    &&& a.ant_1_array.len() == a.ant_2_array.len()
    &&& forall|i: int| 0 <= i < a.ant_1_array.len() ==> baseline_of(#[trigger] a.ant_1_array[i], a.ant_2_array[i], false) <= u32::MAX
}

/// The baseline numbers of a file's antenna pairs (base 2048).
pub open spec fn derived_baselines(a: StoredArrays) -> Seq<u32> {
    Seq::new(a.ant_1_array.len() as nat, |i: int| baseline_of(a.ant_1_array[i], a.ant_2_array[i], false) as u32)
}

/// The number of distinct baselines of a file.
pub open spec fn distinct_baselines(a: StoredArrays) -> nat {
    derived_baselines(a).to_set().len()
}

pub open spec fn shape_error(f: Field, e: ShapeError) -> FormatError {
    match e {
        ShapeError::Rank(n) => FormatError::Rank(f, n),
        ShapeError::Inconsistent => FormatError::Inconsistent(f),
    }
}

/// The first problem, after the header, that keeps a file from being read.
pub open spec fn later_error(f: StoredFile, pt: PhaseType, nfreqs: u32) -> Option<FormatError> {
    if squeezed_rows(f.arrays.freq_array) is Err {
        Some(shape_error(Field::FreqArray, squeezed_rows(f.arrays.freq_array)->Err_0))
    } else if broadcast_to(f.arrays.channel_width, nfreqs as nat) is Err {
        Some(shape_error(Field::ChannelWidth, broadcast_to(f.arrays.channel_width, nfreqs as nat)->Err_0))
    } else if f.arrays.phase_center_catalog is None && legacy_missing(f.header, pt) is Some {
        Some(FormatError::Missing(legacy_missing(f.header, pt)->0))
    } else {
        match f.data {
            None => None,
            Some(sd) => if squeezed_shape(sd.visdata) is Err {
                Some(shape_error(Field::Visdata, squeezed_shape(sd.visdata)->Err_0))
            } else if squeezed_shape(sd.flags) is Err {
                Some(shape_error(Field::Flags, squeezed_shape(sd.flags)->Err_0))
            } else if squeezed_shape(sd.nsamples) is Err {
                Some(shape_error(Field::Nsamples, squeezed_shape(sd.nsamples)->Err_0))
            } else {
                None
            },
        }
    }
}

pub open spec fn zeros(v: Seq<u32>, n: nat) -> bool {
    v.len() == n && forall|i: int| 0 <= i < n ==> #[trigger] v[i] == 0
}

/// What the arrays of a dataset read from file `f` hold, given its description.
pub open spec fn arrays_read_from(a: ArrayMetaData, f: StoredFile, m: UVMeta) -> bool {
    let s = f.arrays;
    &&& a.spw_array == s.spw_array
    &&& a.uvw_array == s.uvw_array
    &&& a.time_array == s.time_array
    &&& a.lst_array == s.lst_array
    &&& a.ant_1_array == s.ant_1_array
    &&& a.ant_2_array == s.ant_2_array
    &&& a.baseline_array@ == derived_baselines(s)
    &&& a.freq_array@ == squeezed_rows(s.freq_array)->Ok_0
    &&& a.spw_id_array@ == (match s.flex_spw_id_array {
        Some(v) => v@,
        None => Seq::new(m.nfreqs as nat, |i: int| 0u32),
    })
    &&& a.polarization_array == s.polarization_array
    &&& a.integration_time == s.integration_time
    &&& a.channel_width@ == broadcast_to(s.channel_width, m.nfreqs as nat)->Ok_0
    &&& a.antenna_numbers == s.antenna_numbers
    &&& a.antenna_names == s.antenna_names
    &&& a.antenna_positions == s.antenna_positions
    &&& a.eq_coeffs == s.eq_coeffs
    &&& a.antenna_diameters == s.antenna_diameters
    &&& match s.phase_center_catalog {
        Some(es) => {
            &&& a.phase_center_catalog.wf()
            &&& a.phase_center_catalog.entries@ == built_from(es@)
            &&& match s.phase_center_id_array {
                Some(ids) => a.phase_center_id_array == ids,
                None => zeros(a.phase_center_id_array@, m.nblts as nat),
            }
        },
        None => {
            &&& is_legacy_catalog(a.phase_center_catalog, f.header, m.phase_type, m.object_name@)
            &&& zeros(a.phase_center_id_array@, m.nblts as nat)
        },
    }
}

/// What the cubes of a dataset read from file `f` hold.
pub open spec fn cubes_read_from(d: UVData, f: StoredFile) -> bool {
    match f.data {
        None => d.data_array is None && d.nsample_array is None && d.flag_array is None,
        Some(sd) => {
            &&& d.data_array matches Some(c) && is_squeezed_cube(sd.visdata, Ok(c))
            &&& d.flag_array matches Some(c) && is_squeezed_cube(sd.flags, Ok(c))
            &&& d.nsample_array matches Some(c) && is_squeezed_cube(sd.nsamples, Ok(c))
        },
    }
}

/// Whether `r` is what reading file `f` gives.
pub open spec fn read_outcome(f: StoredFile, r: Result<UVData, FormatError>) -> bool {
    keywords_normal(f.header) && read_result(f, r)
}

/// The dataset or error that reading file `f` gives.
pub open spec fn read_result(f: StoredFile, r: Result<UVData, FormatError>) -> bool {
    if !ants_ok(f.arrays) || distinct_baselines(f.arrays) > u32::MAX {
        r == Err::<UVData, FormatError>(FormatError::AntennaRange)
    } else if first_missing(f.header) is Some {
        r == Err::<UVData, FormatError>(FormatError::Missing(first_missing(f.header)->0))
    } else if first_bad_keyword(f.header) is Some {
        r matches Err(FormatError::Keyword(g, m)) && g == first_bad_keyword(f.header)->0
            && m@ == keyword_error(f.header, g)
    } else {
        let pt = stored_phase_type(f.header.phase_type)->0;
        match later_error(f, pt, f.header.nfreqs->0) {
            Some(e) => r == Err::<UVData, FormatError>(e),
            None => r matches Ok(d) && {
                &&& meta_read_from(d.meta, f.header, distinct_baselines(f.arrays) as u32)
                &&& arrays_read_from(d.meta_arrays, f, d.meta)
                &&& cubes_read_from(d, f)
            },
        }
    }
}

fn map_shape<T>(r: Result<T, ShapeError>, f: Field) -> (o: Result<T, FormatError>)
    ensures
        match r {
            Ok(v) => o == Ok::<T, FormatError>(v),
            Err(e) => o == Err::<T, FormatError>(shape_error(f, e)),
        },
{
    match r {
        Ok(v) => Ok(v),
        Err(ShapeError::Rank(n)) => Err(FormatError::Rank(f, n)),
        Err(ShapeError::Inconsistent) => Err(FormatError::Inconsistent(f)),
    }
}

fn ants_fit(a1: &Vec<u32>, a2: &Vec<u32>) -> (r: bool)
    ensures
        r == (a1.len() == a2.len() && forall|i: int| 0 <= i < a1.len() ==> baseline_of(#[trigger] a1[i], a2[i], false) <= u32::MAX),
{
    if a1.len() != a2.len() {
        return false;
    }
    let mut i: usize = 0;
    while i < a1.len()
        invariant
            i <= a1.len(),
            a1.len() == a2.len(),
            forall|j: int| 0 <= j < i ==> baseline_of(#[trigger] a1[j], a2[j], false) <= u32::MAX,
        decreases a1.len() - i,
    {
        let x = a1[i] as u64;
        let y = a2[i] as u64;
        if 2048 * (x + 1) + (y + 1) + 65536 > 0xffff_ffffu64 {
            return false;
        }
        i = i + 1;
    }
    true
}

/// Reads a dataset from a file: the description from the header, the
/// baseline numbers derived from the antenna pairs and counted for `nbls`,
/// per-frequency arrays brought to one axis, the catalog from its group or
/// from the single-phase datasets, and the data cubes, when the file holds
/// them, brought to three axes.
pub fn read_file(file: StoredFile) -> (r: Result<UVData, FormatError>)
    ensures
        read_outcome(file, r),
{
    let ghost f0 = file;
    let StoredFile { header, arrays, data } = file;
    let described = meta_from_header(&header, 0);
    if !ants_fit(&arrays.ant_1_array, &arrays.ant_2_array) {
        return Err(FormatError::AntennaRange);
    }
    let baseline_array = antnums_to_baseline(&arrays.ant_1_array, &arrays.ant_2_array, false);
    assert(baseline_array@ =~= derived_baselines(f0.arrays));
    let count = count_distinct(&baseline_array);
    if count > 0xffff_ffffusize {
        return Err(FormatError::AntennaRange);
    }
    let mut meta = described?;
    meta.nbls = count as u32;
    let nfreqs = meta.nfreqs as usize;
    let nblts = meta.nblts as usize;
    let freq_array = map_shape(squeeze_rows(&arrays.freq_array), Field::FreqArray)?;
    let channel_width = map_shape(broadcast(&arrays.channel_width, nfreqs), Field::ChannelWidth)?;
    let StoredArrays {
        spw_array, uvw_array, time_array, lst_array, ant_1_array, ant_2_array,
        freq_array: _, flex_spw_id_array, polarization_array, integration_time,
        channel_width: _, antenna_numbers, antenna_names, antenna_positions, eq_coeffs,
        antenna_diameters, phase_center_catalog, phase_center_id_array,
    } = arrays;
    let (catalog, ids) = match phase_center_catalog {
        Some(entries) => {
            let cat = catalog_from_entries(entries);
            let ids = match phase_center_id_array {
                Some(v) => v,
                None => repeat(0u32, nblts),
            };
            (cat, ids)
        },
        None => {
            let cat = legacy_catalog(&header, meta.phase_type, &meta.object_name)?;
            (cat, repeat(0u32, nblts))
        },
    };
    let spw_id_array = match flex_spw_id_array {
        Some(v) => v,
        None => {
            let z = repeat(0u32, nfreqs);
            assert(z@ =~= Seq::new(meta.nfreqs as nat, |i: int| 0u32));
            z
        },
    };
    let (data_array, nsample_array, flag_array) = match data {
        None => (None, None, None),
        Some(sd) => {
            let vis = map_shape(squeeze_cube(&sd.visdata), Field::Visdata)?;
            let flags = map_shape(squeeze_cube(&sd.flags), Field::Flags)?;
            let samples = map_shape(squeeze_cube(&sd.nsamples), Field::Nsamples)?;
            (Some(vis), Some(samples), Some(flags))
        },
    };
    let meta_arrays = ArrayMetaData {
        spw_array,
        uvw_array,
        time_array,
        lst_array,
        ant_1_array,
        ant_2_array,
        baseline_array,
        freq_array,
        spw_id_array,
        polarization_array,
        integration_time,
        channel_width,
        antenna_numbers,
        antenna_names,
        antenna_positions,
        eq_coeffs,
        antenna_diameters,
        phase_center_catalog: catalog,
        phase_center_id_array: ids,
    };
    Ok(UVData { meta, meta_arrays, data_array, nsample_array, flag_array })
}

// ---------------------------------------------------------------- writing

/// How the catalog of a dataset goes to a file.
pub enum Layout {
    /// A drift dataset: no catalog group.
    Drift,
    /// A single sidereal phase center: the single-phase datasets.
    Sidereal,
    /// A catalog group of every entry; with the id array when it has more
    /// than one phase.
    Group,
}

/// Whether every cube of a dataset is present.
pub open spec fn has_cubes(d: UVData) -> bool {
    d.data_array is Some && d.nsample_array is Some && d.flag_array is Some
}

/// How the catalog of `d` is written, if it can be: with one phase, after the
/// kind of its sole entry; with more, as a group.
pub open spec fn layout_of(d: UVData) -> Option<Layout> {
    let c = d.meta_arrays.phase_center_catalog;
    if d.meta.nphases == 1 {
        if c.len() != 1 {
            None
        } else {
            match c.entries[0].1 {
                CatTypes::Unphased(_) => Some(Layout::Drift),
                CatTypes::Sidereal(_) => Some(Layout::Sidereal),
                CatTypes::Ephem(_) => Some(Layout::Group),
            }
        }
    } else if d.meta.nphases > 1 {
        Some(Layout::Group)
    } else {
        None
    }
}

/// A keyword dataset that is written only when it is known.
pub open spec fn written_unless(known: bool, s: Option<String>, text: Seq<char>) -> bool {
    if known {
        s matches Some(t) && t@ == text
    } else {
        s is None
    }
}

/// The header written for dataset `d` with catalog layout `l`.
pub open spec fn header_written_for(h: StoredHeader, d: UVData, l: Layout) -> bool {
    let m = d.meta;
    &&& h.telescope_location == m.telescope_location
    &&& h.nblts == Some(m.nblts) && h.nspws == Some(m.nspws) && h.npols == Some(m.npols)
    &&& h.ntimes == Some(m.ntimes) && h.nfreqs == Some(m.nfreqs)
    &&& h.nants_data == Some(m.nants_data) && h.nants_telescope == Some(m.nants_telescope)
    &&& h.nphase == (if l is Group { Some(m.nphases) } else { None::<u32> })
    &&& h.instrument == Some(m.instrument)
    &&& h.telescope_name == Some(m.telescope_name)
    &&& h.object_name == Some(m.object_name)
    &&& h.history matches Some(t) && t@ == stamped(m.history@)
    &&& h.vis_units matches Some(t) && t@ == crate::enums::vis_unit_text(m.vis_units)
    &&& written_unless(m.x_orientation != Orientation::Unknown, h.x_orientation, crate::enums::orientation_text(m.x_orientation))
    &&& written_unless(!(m.blt_order.major == crate::enums::BltOrders::Unknown && m.blt_order.minor == crate::enums::BltOrders::Unknown),
            h.blt_order, crate::enums::blt_order_text(m.blt_order))
    &&& written_unless(m.eq_coeffs_convention != EqConvention::Unknown, h.eq_coeffs_convention,
            crate::enums::eq_convention_text(m.eq_coeffs_convention))
    &&& h.phase_type matches Some(t) && t@ == (if l is Drift { "drift"@ } else { crate::enums::phase_type_text(m.phase_type) })
    &&& h.dut1 == m.dut1 && h.gst0 == m.gst0 && h.earth_omega == m.earth_omega
    &&& h.rdate == m.rdate && h.timesys == m.timesys
    &&& h.uvplane_reference_time == m.uvplane_reference_time
    &&& if l is Sidereal {
        let sv = d.meta_arrays.phase_center_catalog.entries[0].1->Sidereal_0;
        &&& h.phase_center_frame matches Some(t) && t@ == lower_of(sv.cat_frame@)
        &&& h.phase_center_ra == Some(sv.cat_lon)
        &&& h.phase_center_dec == Some(sv.cat_lat)
        &&& h.phase_center_epoch == Some(sv.cat_epoch)
    } else {
        h.phase_center_frame is None && h.phase_center_ra is None && h.phase_center_dec is None
            && h.phase_center_epoch is None
    }
}

/// A cube as a file stores it.
pub open spec fn stored_cube<T>(s: StoredArray<T>, c: Cube<T>) -> bool {
    s.shape@ == seq![c.dim0, c.dim1, c.dim2] && s.data == c.data
}

/// The file written for dataset `d` with catalog layout `l`.
pub open spec fn written_for(f: StoredFile, d: UVData, l: Layout) -> bool {
    let a = d.meta_arrays;
    let s = f.arrays;
    &&& header_written_for(f.header, d, l)
    &&& s.spw_array == a.spw_array
    &&& s.uvw_array == a.uvw_array
    &&& s.time_array == a.time_array
    &&& s.lst_array == a.lst_array
    &&& s.ant_1_array == a.ant_1_array
    &&& s.ant_2_array == a.ant_2_array
    &&& s.freq_array.shape@ == seq![a.freq_array.len()] && s.freq_array.data == a.freq_array
    &&& s.flex_spw_id_array == Some(a.spw_id_array)
    &&& s.polarization_array == a.polarization_array
    &&& s.integration_time == a.integration_time
    &&& s.channel_width.shape@ == seq![a.channel_width.len()] && s.channel_width.data == a.channel_width
    &&& s.antenna_numbers == a.antenna_numbers
    &&& s.antenna_names == a.antenna_names
    &&& s.antenna_positions == a.antenna_positions
    &&& s.eq_coeffs == a.eq_coeffs
    &&& s.antenna_diameters == a.antenna_diameters
    &&& s.phase_center_catalog == (if l is Group { Some(a.phase_center_catalog.entries) } else { None })
    &&& s.phase_center_id_array == (if l is Group && d.meta.nphases > 1 { Some(a.phase_center_id_array) } else { None })
    &&& f.data matches Some(sd) && {
        &&& stored_cube(sd.visdata, d.data_array->0)
        &&& stored_cube(sd.flags, d.flag_array->0)
        &&& stored_cube(sd.nsamples, d.nsample_array->0)
    }
}

/// Whether `r` is what writing dataset `d` gives.
pub open spec fn write_outcome(d: UVData, r: Result<StoredFile, FormatError>) -> bool {
    if !has_cubes(d) {
        r == Err::<StoredFile, FormatError>(FormatError::MetadataOnly)
    } else {
        match layout_of(d) {
            None => r == Err::<StoredFile, FormatError>(FormatError::InvalidCatalog),
            Some(l) => r matches Ok(f) && written_for(f, d, l),
        }
    }
}

fn text_of(s: &str) -> (r: String)
    ensures
        r@ == s@,
{
    String::from_str(s)
}

fn stored_cube_of<T>(c: Cube<T>) -> (r: StoredArray<T>)
    ensures
        stored_cube(r, c),
{
    let mut shape: Vec<usize> = Vec::new();
    shape.push(c.dim0);
    shape.push(c.dim1);
    shape.push(c.dim2);
    assert(shape@ =~= seq![c.dim0, c.dim1, c.dim2]);
    StoredArray { shape, data: c.data }
}

fn stored_flat<T>(v: Vec<T>) -> (r: StoredArray<T>)
    ensures
        r.shape@ == seq![v.len()],
        r.data == v,
{
    let mut shape: Vec<usize> = Vec::new();
    shape.push(v.len());
    assert(shape@ =~= seq![v.len()]);
    StoredArray { shape, data: v }
}

/// Turns a dataset into the file that stores it: keywords written only when
/// known, the history stamped, the catalog as the single-phase datasets or as
/// a group, and the cubes in three axes. A dataset without its cubes, or
/// whose catalog does not fit its number of phases, is refused.
pub fn write_file(d: UVData) -> (r: Result<StoredFile, FormatError>)
    ensures
        write_outcome(d, r),
{
    let ghost d0 = d;
    if d.data_array.is_none() || d.nsample_array.is_none() || d.flag_array.is_none() {
        return Err(FormatError::MetadataOnly);
    }
    let nphases = d.meta.nphases;
    let layout = if nphases == 1 {
        if d.meta_arrays.phase_center_catalog.entries.len() != 1 {
            return Err(FormatError::InvalidCatalog);
        }
        match &d.meta_arrays.phase_center_catalog.entries[0].1 {
            CatTypes::Unphased(_) => Layout::Drift,
            CatTypes::Sidereal(_) => Layout::Sidereal,
            CatTypes::Ephem(_) => Layout::Group,
        }
    } else if nphases > 1 {
        Layout::Group
    } else {
        return Err(FormatError::InvalidCatalog);
    };
    let UVData { meta, meta_arrays, data_array, nsample_array, flag_array } = d;
    let history = stamp_history(meta.history.as_str());
    let x_orientation = if meta.x_orientation != Orientation::Unknown {
        Some(text_of(meta.x_orientation.as_text()))
    } else {
        None
    };
    let blt_order = if !meta.blt_order.is_unknown() {
        Some(meta.blt_order.to_text())
    } else {
        None
    };
    let eq_coeffs_convention = if meta.eq_coeffs_convention != EqConvention::Unknown {
        Some(text_of(meta.eq_coeffs_convention.as_text()))
    } else {
        None
    };
    let phase_type = match layout {
        Layout::Drift => text_of("drift"),
        _ => text_of(meta.phase_type.as_text()),
    };
    let is_group = match layout {
        Layout::Group => true,
        _ => false,
    };
    let (frame, ra, dec, epoch) = match layout {
        Layout::Sidereal => match &meta_arrays.phase_center_catalog.entries[0].1 {
            CatTypes::Sidereal(sv) => (Some(to_lower(sv.cat_frame.as_str())), Some(sv.cat_lon), Some(sv.cat_lat), Some(sv.cat_epoch)),
            _ => (None, None, None, None),
        },
        _ => (None, None, None, None),
    };
    let header = StoredHeader {
        telescope_location: meta.telescope_location,
        nblts: Some(meta.nblts),
        nspws: Some(meta.nspws),
        npols: Some(meta.npols),
        ntimes: Some(meta.ntimes),
        nfreqs: Some(meta.nfreqs),
        nants_data: Some(meta.nants_data),
        nants_telescope: Some(meta.nants_telescope),
        nphase: if is_group { Some(nphases) } else { None },
        instrument: Some(meta.instrument),
        telescope_name: Some(meta.telescope_name),
        object_name: Some(meta.object_name),
        history: Some(history),
        vis_units: Some(text_of(meta.vis_units.as_text())),
        x_orientation,
        blt_order,
        eq_coeffs_convention,
        phase_type: Some(phase_type),
        dut1: meta.dut1,
        gst0: meta.gst0,
        earth_omega: meta.earth_omega,
        rdate: meta.rdate,
        timesys: meta.timesys,
        uvplane_reference_time: meta.uvplane_reference_time,
        phase_center_frame: frame,
        phase_center_ra: ra,
        phase_center_dec: dec,
        phase_center_epoch: epoch,
    };
    let ArrayMetaData {
        spw_array, uvw_array, time_array, lst_array, ant_1_array, ant_2_array,
        baseline_array: _, freq_array, spw_id_array, polarization_array, integration_time,
        channel_width, antenna_numbers, antenna_names, antenna_positions, eq_coeffs,
        antenna_diameters, phase_center_catalog, phase_center_id_array,
    } = meta_arrays;
    let (catalog, ids) = if is_group {
        if nphases > 1 {
            (Some(phase_center_catalog.entries), Some(phase_center_id_array))
        } else {
            (Some(phase_center_catalog.entries), None)
        }
    } else {
        (None, None)
    };
    let arrays = StoredArrays {
        spw_array,
        uvw_array,
        time_array,
        lst_array,
        ant_1_array,
        ant_2_array,
        freq_array: stored_flat(freq_array),
        flex_spw_id_array: Some(spw_id_array),
        polarization_array,
        integration_time,
        channel_width: stored_flat(channel_width),
        antenna_numbers,
        antenna_names,
        antenna_positions,
        eq_coeffs,
        antenna_diameters,
        phase_center_catalog: catalog,
        phase_center_id_array: ids,
    };
    let data = match (data_array, nsample_array, flag_array) {
        (Some(vis), Some(samples), Some(flags)) => StoredData {
            visdata: stored_cube_of(vis),
            flags: stored_cube_of(flags),
            nsamples: stored_cube_of(samples),
        },
        _ => {
            return Err(FormatError::MetadataOnly);
        },
    };
    Ok(StoredFile { header, arrays, data: Some(data) })
}

// ---------------------------------------------------------------- round trip

/// Whether two catalog entries agree, texts compared by their characters.
pub open spec fn same_entry(x: CatTypes, y: CatTypes) -> bool {
    match (x, y) {
        (CatTypes::Unphased(a), CatTypes::Unphased(b)) => a.cat_id == b.cat_id && a.cat_type@ == b.cat_type@,
        (CatTypes::Sidereal(a), CatTypes::Sidereal(b)) => {
            &&& a.cat_id == b.cat_id && a.cat_type@ == b.cat_type@
            &&& a.cat_lon == b.cat_lon && a.cat_lat == b.cat_lat && a.cat_epoch == b.cat_epoch
            &&& a.cat_frame@ == b.cat_frame@
            &&& a.cat_pm_ra == b.cat_pm_ra && a.cat_pm_dec == b.cat_pm_dec
            &&& a.cat_dist == b.cat_dist && a.cat_vrad == b.cat_vrad
            &&& match (a.info_source, b.info_source) {
                (Some(p), Some(q)) => p@ == q@,
                (None, None) => true,
                _ => false,
            }
        },
        (CatTypes::Ephem(a), CatTypes::Ephem(b)) => a == b,
        _ => false,
    }
}

/// Whether two catalogs hold the same entries in the same order.
pub open spec fn same_catalog(x: Catalog, y: Catalog) -> bool {
    &&& x.entries.len() == y.entries.len()
    &&& forall|i: int| 0 <= i < x.entries.len() ==> (#[trigger] x.entries[i]).0@ == y.entries[i].0@
        && same_entry(x.entries[i].1, y.entries[i].1)
}

/// Whether `d2` is `d` with its history stamped: every value equal, texts
/// compared by their characters.
pub open spec fn same_but_stamp(d2: UVData, d: UVData) -> bool {
    let (m2, m) = (d2.meta, d.meta);
    let (a2, a) = (d2.meta_arrays, d.meta_arrays);
    &&& m2 == UVMeta { object_name: m2.object_name, history: m2.history, ..m }
    &&& m2.object_name@ == m.object_name@
    &&& m2.history@ == stamped(m.history@)
    &&& a2 == ArrayMetaData {
        baseline_array: a2.baseline_array,
        freq_array: a2.freq_array,
        channel_width: a2.channel_width,
        spw_id_array: a2.spw_id_array,
        phase_center_catalog: a2.phase_center_catalog,
        phase_center_id_array: a2.phase_center_id_array,
        ..a
    }
    &&& a2.baseline_array@ == a.baseline_array@
    &&& a2.freq_array@ == a.freq_array@
    &&& a2.channel_width@ == a.channel_width@
    &&& a2.spw_id_array@ == a.spw_id_array@
    &&& same_catalog(a2.phase_center_catalog, a.phase_center_catalog)
    &&& a2.phase_center_id_array@ == a.phase_center_id_array@
    &&& d2.data_array matches Some(c2) && d.data_array matches Some(c) && c2.shape() == c.shape() && c2.data@ == c.data@
    &&& d2.nsample_array matches Some(c2) && d.nsample_array matches Some(c) && c2.shape() == c.shape() && c2.data@ == c.data@
    &&& d2.flag_array matches Some(c2) && d.flag_array matches Some(c) && c2.shape() == c.shape() && c2.data@ == c.data@
}

/// The datasets that a write and a read bring back: all cubes present and of
/// consistent shape; baselines and their count as a read derives them; an
/// object name already lower-case; a listed ordering; and a catalog in the
/// form a read gives back for its layout.
pub open spec fn round_trippable(d: UVData) -> bool {
    let m = d.meta;
    let a = d.meta_arrays;
    let c = a.phase_center_catalog;
    &&& has_cubes(d)
    &&& d.data_array->0.wf() && d.nsample_array->0.wf() && d.flag_array->0.wf()
    &&& layout_of(d) is Some
    &&& a.ant_1_array.len() == a.ant_2_array.len()
    &&& forall|i: int| 0 <= i < a.ant_1_array.len() ==> baseline_of(#[trigger] a.ant_1_array[i], a.ant_2_array[i], false) <= u32::MAX
    &&& a.baseline_array@ == Seq::new(a.ant_1_array.len() as nat, |i: int| baseline_of(a.ant_1_array[i], a.ant_2_array[i], false) as u32)
    &&& m.nbls == a.baseline_array@.to_set().len()
    &&& lower_of(m.object_name@) == m.object_name@
    &&& crate::enums::is_listed_order(m.blt_order)
    &&& c.wf()
    &&& match layout_of(d)->0 {
        Layout::Drift => {
            &&& m.phase_type == PhaseType::Drift
            &&& c.entries[0].0@ == zenith()
            &&& crate::catalog::is_unphased(c.entries[0].1, 0)
            &&& zeros(a.phase_center_id_array@, m.nblts as nat)
        },
        Layout::Sidereal => {
            &&& m.phase_type == PhaseType::Phased
            &&& c.entries[0].0@ == m.object_name@
            &&& c.entries[0].1 matches CatTypes::Sidereal(sv) && {
                &&& sv.cat_id == 0
                &&& sv.cat_type@ == "sidereal"@
                &&& lower_of(sv.cat_frame@) == sv.cat_frame@
                &&& sv.cat_pm_ra is None && sv.cat_pm_dec is None
                &&& sv.cat_dist is None && sv.cat_vrad is None
                &&& sv.info_source matches Some(src) && src@ == "UVData"@
            }
            &&& zeros(a.phase_center_id_array@, m.nblts as nat)
        },
        Layout::Group => m.nphases == 1 ==> zeros(a.phase_center_id_array@, m.nblts as nat),
    }
}

proof fn lemma_keywords_read_back(m: UVMeta)
    requires
        crate::enums::is_listed_order(m.blt_order),
    ensures
        vis_unit_from_text(crate::enums::vis_unit_text(m.vis_units)) == Some(m.vis_units),
        orientation_from_text(crate::enums::orientation_text(m.x_orientation)) == Some(m.x_orientation),
        blt_order_from_text(crate::enums::blt_order_text(m.blt_order)) == Some(m.blt_order),
        eq_convention_from_text(crate::enums::eq_convention_text(m.eq_coeffs_convention)) == Some(m.eq_coeffs_convention),
        phase_type_from_text(crate::enums::phase_type_text(m.phase_type)) == Some(m.phase_type),
        phase_type_from_text("drift"@) == Some(PhaseType::Drift),
{
    crate::enums::lemma_vis_unit_text_round_trip(m.vis_units);
    crate::enums::lemma_orientation_text_round_trip(m.x_orientation);
    crate::enums::lemma_blt_order_text_round_trip(m.blt_order);
    crate::enums::lemma_eq_convention_text_round_trip(m.eq_coeffs_convention);
    crate::enums::lemma_phase_type_text_round_trip(m.phase_type);
    crate::enums::lemma_phase_type_text_round_trip(PhaseType::Drift);
}

/// Writing a dataset and reading the file back gives the same dataset, but
/// for a history that now carries the stamp.
pub proof fn lemma_round_trip(d: UVData, f: StoredFile, r: Result<UVData, FormatError>)
    requires
        round_trippable(d),
        write_outcome(d, Ok(f)),
        read_outcome(f, r),
    ensures
        r matches Ok(d2) && same_but_stamp(d2, d),
{
    let m = d.meta;
    let a = d.meta_arrays;
    let l = layout_of(d)->0;
    let h = f.header;
    lemma_keywords_read_back(m);
    crate::enums::lemma_keywords_plain(m.vis_units, m.phase_type, m.eq_coeffs_convention, m.x_orientation, m.blt_order);
    crate::enums::lemma_keywords_plain(m.vis_units, PhaseType::Drift, m.eq_coeffs_convention, m.x_orientation, m.blt_order);
    crate::history::lemma_stamp_idempotent(m.history@);
    assert(derived_baselines(f.arrays) =~= a.baseline_array@);
    assert(first_missing(h) is None);
    assert(first_bad_keyword(h) is None);
    let sd = f.data->0;
    crate::shape::lemma_extent3(sd.visdata.shape@);
    crate::shape::lemma_extent3(sd.flags.shape@);
    crate::shape::lemma_extent3(sd.nsamples.shape@);
    assert(f.arrays.freq_array.data@.subrange(0, f.arrays.freq_array.data.len() as int) =~= f.arrays.freq_array.data@);
    assert(later_error(f, m.phase_type, m.nfreqs) is None);
    let d2 = r->Ok_0;
    assert(d2.meta == UVMeta { object_name: d2.meta.object_name, history: d2.meta.history, ..m });
    if l is Group {
        crate::catalog::lemma_built_from_distinct(a.phase_center_catalog.entries@);
    }
    let (a2, m2) = (d2.meta_arrays, d2.meta);
    assert(a2.spw_id_array@ == a.spw_id_array@);
    assert(m2.object_name@ == m.object_name@);
    assert(m2.history@ == stamped(m.history@));
    assert(a2.baseline_array@ == a.baseline_array@);
    assert(a2.freq_array@ == a.freq_array@);
    assert(a2.channel_width@ == a.channel_width@);
    assert(same_catalog(a2.phase_center_catalog, a.phase_center_catalog));
    assert(a2.phase_center_id_array@ == a.phase_center_id_array@);
    assert(d2.data_array matches Some(c2) && d.data_array matches Some(c) && c2.shape() == c.shape() && c2.data@ == c.data@);
    assert(d2.flag_array matches Some(c2) && d.flag_array matches Some(c) && c2.shape() == c.shape() && c2.data@ == c.data@);
    assert(d2.nsample_array matches Some(c2) && d.nsample_array matches Some(c) && c2.shape() == c.shape() && c2.data@ == c.data@);
    assert(a2 == ArrayMetaData {
        baseline_array: a2.baseline_array,
        freq_array: a2.freq_array,
        channel_width: a2.channel_width,
        spw_id_array: a2.spw_id_array,
        phase_center_catalog: a2.phase_center_catalog,
        phase_center_id_array: a2.phase_center_id_array,
        ..a
    });
}

/// A file without catalog group reads with a single catalog entry of id 0:
/// unphased and named `"zenith"` when it drifts; sidereal, named after the
/// object and marked as coming from `"UVData"`, when it is phased.
pub proof fn lemma_single_phase_catalog(f: StoredFile, d: UVData)
    requires
        f.arrays.phase_center_catalog is None,
        read_outcome(f, Ok(d)),
    ensures
        d.meta.phase_type == PhaseType::Drift ==> {
            let c = d.meta_arrays.phase_center_catalog;
            &&& c.len() == 1
            &&& c.entries[0].0@ == "zenith"@
            &&& crate::catalog::is_unphased(c.entries[0].1, 0)
        },
        d.meta.phase_type == PhaseType::Phased ==> {
            let c = d.meta_arrays.phase_center_catalog;
            &&& c.len() == 1
            &&& c.entries[0].0@ == d.meta.object_name@
            &&& c.entries[0].1 is Sidereal
            &&& c.entries[0].1->Sidereal_0.cat_id == 0
            &&& c.entries[0].1->Sidereal_0.info_source matches Some(src) && src@ == "UVData"@
        },
        forall|i: int| 0 <= i < d.meta_arrays.phase_center_id_array.len() ==> #[trigger] d.meta_arrays.phase_center_id_array[i] == 0,
{
}

} // verus!
