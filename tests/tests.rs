use uvdata::{
    antnums_to_baseline, baseline_to_antnums, BltOrder, BltOrders, ComplexBits, Cube,
    EqConvention, Orientation, PhaseType, UVData, UVMeta, VisUnit,
};

fn zero_bits() -> u64 {
    0.0f64.to_bits()
}

fn test_meta(instrument: &str) -> UVMeta {
    UVMeta {
        nbls: 3,
        nblts: 15,
        ntimes: 5,
        nfreqs: 12,
        npols: 4,
        nspws: 1,
        nphases: 1,
        nants_data: 5,
        nants_telescope: 12,
        blt_order: BltOrder {
            major: BltOrders::Unknown,
            minor: BltOrders::Unknown,
        },
        phase_type: PhaseType::Drift,
        vis_units: VisUnit::Jansky,
        x_orientation: Orientation::Unknown,
        instrument: instrument.to_owned(),
        telescope_name: "Test".to_owned(),
        telescope_location: [zero_bits(), zero_bits(), zero_bits()],
        object_name: "Unknown".to_string(),
        eq_coeffs_convention: EqConvention::Unknown,
        dut1: None,
        gst0: None,
        rdate: None,
        earth_omega: None,
        timesys: None,
        uvplane_reference_time: None,
        history: "".to_string(),
    }
}

fn cube_of<T: Clone>(meta: &UVMeta, v: T) -> Cube<T> {
    let (a, b, c) = (
        meta.nblts as usize,
        meta.ntimes as usize,
        meta.npols as usize,
    );
    Cube {
        dim0: a,
        dim1: b,
        dim2: c,
        data: vec![v; a * b * c],
    }
}

fn zero_vis() -> ComplexBits {
    ComplexBits {
        re: zero_bits(),
        im: zero_bits(),
    }
}

#[test]
fn init_metadata_false() {
    let meta = test_meta("Test");
    let test_data = cube_of(&meta, zero_vis());
    let test_nsample = cube_of(&meta, 0.0f32.to_bits());
    let test_flag = cube_of(&meta, false);
    let uvd = UVData::new(meta, false);
    assert_eq!(uvd.data_array.unwrap(), test_data);
    assert_eq!(uvd.nsample_array.unwrap(), test_nsample);
    assert_eq!(uvd.flag_array.unwrap(), test_flag);
}

#[test]
fn from_uvmeta_bool() {
    let meta = test_meta("Test");
    let test_data = cube_of(&meta, zero_vis());
    let test_nsample = cube_of(&meta, 0.0f32.to_bits());
    let test_flag = cube_of(&meta, false);
    let uvd = UVData::from((meta, false));
    assert_eq!(uvd.data_array.unwrap(), test_data);
    assert_eq!(uvd.nsample_array.unwrap(), test_nsample);
    assert_eq!(uvd.flag_array.unwrap(), test_flag);
}

#[test]
fn from_uvmeta() {
    let meta = test_meta("Test");
    let uvd = UVData::from(meta);
    assert!(uvd.data_array.is_none());
    assert!(uvd.nsample_array.is_none());
    assert!(uvd.flag_array.is_none());
}

#[test]
fn init_metadata_false_f32() {
    let meta = test_meta("Foo");
    let test_data = cube_of(
        &meta,
        ComplexBits {
            re: f64::from(2.0f32).to_bits(),
            im: f64::from(-3.2f32).to_bits(),
        },
    );
    let test_nsample = cube_of(&meta, 3.1415f32.to_bits());
    let test_flag = cube_of(&meta, false);
    let mut uvd = UVData::new(meta, false);
    uvd.data_array = Some(test_data.clone());
    uvd.nsample_array = Some(test_nsample.clone());
    uvd.flag_array = Some(test_flag.clone());

    assert_eq!(uvd.data_array.unwrap(), test_data);
    assert_eq!(uvd.nsample_array.unwrap(), test_nsample);
    assert_eq!(uvd.flag_array.unwrap(), test_flag);
}

#[test]
fn init_metadata_true() {
    let meta = test_meta("Test");
    let uvd = UVData::new(meta, true);
    assert!(uvd.data_array.is_none());
    assert!(uvd.nsample_array.is_none());
    assert!(uvd.flag_array.is_none());
}

#[test]
fn anums_to_bls() {
    let ant_1 = vec![10u32, 280u32];
    let ant_2 = vec![20u32, 310u32];
    assert_eq!(
        vec![88085u32, 641335u32],
        antnums_to_baseline(&ant_1, &ant_2, false)
    );
}

#[test]
fn anums_to_bls_256() {
    let ant_1 = vec![0u32, 3u32];
    let ant_2 = vec![0u32, 6u32];
    assert_eq!(
        vec![257u32, 1031u32],
        antnums_to_baseline(&ant_1, &ant_2, true)
    );
}

#[test]
fn bls_to_antnums() {
    let bls = vec![88085u32, 641335u32];
    let ant_1 = vec![10u32, 280u32];
    let ant_2 = vec![20u32, 310u32];
    let anums = baseline_to_antnums(&bls, false);
    assert_eq!(ant_1, anums.0);
    assert_eq!(ant_2, anums.1)
}

#[test]
fn bls_to_antnums256() {
    let bls = vec![257u32, 1031u32];
    let ant_1 = vec![0u32, 3u32];
    let ant_2 = vec![0u32, 6u32];
    let anums = baseline_to_antnums(&bls, true);
    assert_eq!(ant_1, anums.0);
    assert_eq!(ant_2, anums.1)
}
