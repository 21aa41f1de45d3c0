use uvdata::{
    antnums_to_baseline, baseline_to_antnums, count_distinct, print_version_str, read_file,
    stamp_history, write_file, ArrayMetaData, BltOrder, BltOrders, CatTypes, Catalog,
    ComplexBits, Cube, EqConvention, Field, FormatError, Orientation, PhaseType, ShapeError,
    SiderealVal, StoredArray, StoredArrays, StoredData, StoredFile, StoredHeader, UVData, UVMeta,
    UnphasedVal, VisUnit,
};
use uvdata::agree::{catalog_match, entry_match, meta_match, uvdata_match};
use uvdata::catalog::zenith_catalog;
use uvdata::shape::{broadcast, squeeze_cube, squeeze_rows};

const STAMP: &str = " Read/Written with uvdata-rust 0.1.0.";

fn bits(x: f64) -> u64 {
    x.to_bits()
}

fn flat<T>(data: Vec<T>) -> StoredArray<T> {
    StoredArray {
        shape: vec![data.len()],
        data,
    }
}

fn sample_header() -> StoredHeader {
    StoredHeader {
        telescope_location: [bits(1.0), bits(2.0), bits(3.0)],
        nblts: Some(2),
        nspws: Some(1),
        npols: Some(1),
        ntimes: Some(1),
        nfreqs: Some(2),
        nants_data: Some(2),
        nants_telescope: Some(2),
        nphase: None,
        instrument: Some("Inst".to_string()),
        telescope_name: Some("Scope".to_string()),
        object_name: Some("Zenith".to_string()),
        history: Some("made".to_string()),
        vis_units: Some("jy".to_string()),
        x_orientation: None,
        blt_order: None,
        eq_coeffs_convention: None,
        phase_type: None,
        dut1: None,
        gst0: None,
        earth_omega: None,
        rdate: None,
        timesys: None,
        uvplane_reference_time: Some(7),
        phase_center_frame: None,
        phase_center_ra: None,
        phase_center_dec: None,
        phase_center_epoch: None,
    }
}

fn sample_arrays() -> StoredArrays {
    StoredArrays {
        spw_array: vec![0],
        uvw_array: vec![[bits(0.5), bits(0.0), bits(0.0)], [bits(1.5), bits(0.0), bits(0.0)]],
        time_array: vec![bits(10.0), bits(10.0)],
        lst_array: vec![bits(0.1), bits(0.1)],
        ant_1_array: vec![0, 0],
        ant_2_array: vec![1, 1],
        freq_array: StoredArray {
            shape: vec![1, 2],
            data: vec![bits(100.0), bits(101.0)],
        },
        flex_spw_id_array: None,
        polarization_array: vec![-5],
        integration_time: vec![bits(2.0), bits(2.0)],
        channel_width: StoredArray {
            shape: vec![],
            data: vec![bits(1.0)],
        },
        antenna_numbers: vec![0, 1],
        antenna_names: vec!["a".to_string(), "b".to_string()],
        antenna_positions: vec![[bits(0.0), bits(0.0), bits(0.0)], [bits(1.0), bits(0.0), bits(0.0)]],
        eq_coeffs: None,
        antenna_diameters: None,
        phase_center_catalog: None,
        phase_center_id_array: None,
    }
}

fn sample_data() -> StoredData {
    let vis: Vec<ComplexBits> = (0..4)
        .map(|i| ComplexBits {
            re: bits(i as f64),
            im: bits(-(i as f64)),
        })
        .collect();
    StoredData {
        visdata: StoredArray {
            shape: vec![2, 1, 2, 1],
            data: vis,
        },
        flags: StoredArray {
            shape: vec![2, 1, 2, 1],
            data: vec![false, true, false, true],
        },
        nsamples: StoredArray {
            shape: vec![2, 1, 2, 1],
            data: vec![1.0f32.to_bits(); 4],
        },
    }
}

fn sample_file() -> StoredFile {
    StoredFile {
        header: sample_header(),
        arrays: sample_arrays(),
        data: None,
    }
}

// ---------------------------------------------------------------- keywords

#[test]
fn vis_unit_keywords() {
    assert_eq!(VisUnit::parse("jy"), Ok(VisUnit::Jansky));
    assert_eq!(VisUnit::parse("  K STR \n"), Ok(VisUnit::Kelvinstr));
    assert_eq!(VisUnit::parse("UNCALIB"), Ok(VisUnit::Uncalib));
    assert_eq!(
        VisUnit::parse(" Jansky "),
        Err("Unknown Visibility Unit: jansky.".to_string())
    );
    for u in [VisUnit::Uncalib, VisUnit::Jansky, VisUnit::Kelvinstr] {
        assert_eq!(VisUnit::parse(u.as_text()), Ok(u));
    }
}

#[test]
fn phase_type_keywords() {
    assert_eq!("Drift".parse::<PhaseType>(), Ok(PhaseType::Drift));
    assert_eq!(PhaseType::parse("phased"), Ok(PhaseType::Phased));
    assert_eq!(PhaseType::parse(" MULTI"), Ok(PhaseType::Multi));
    assert_eq!(
        PhaseType::parse("unknown"),
        Err("Unknown phase type: unknown.".to_string())
    );
    assert_eq!(PhaseType::Multi.as_text(), "multi");
}

#[test]
fn convention_and_orientation_keywords() {
    assert_eq!(EqConvention::parse("Divide"), Ok(EqConvention::Divide));
    assert_eq!(EqConvention::parse("multiply "), Ok(EqConvention::Multiply));
    assert_eq!(EqConvention::parse("unknown"), Ok(EqConvention::Unknown));
    assert!(EqConvention::parse("add").is_err());
    assert_eq!(Orientation::parse("EAST"), Ok(Orientation::East));
    assert_eq!(Orientation::parse("north"), Ok(Orientation::North));
    assert_eq!(
        Orientation::parse("up"),
        Err("Unknown Orientation: up.".to_string())
    );
    assert_eq!(Orientation::Unknown.as_text(), "unknown");
}

#[test]
fn blt_order_keywords() {
    let bda = BltOrder {
        major: BltOrders::Bda,
        minor: BltOrders::Bda,
    };
    assert_eq!(BltOrder::parse("bda,"), Ok(bda));
    assert_eq!(bda.to_text(), "bda,");
    assert_eq!(
        BltOrder::parse(" Time, Baseline "),
        Ok(BltOrder {
            major: BltOrders::Time,
            minor: BltOrders::Baseline
        })
    );
    assert_eq!(BltOrder::parse("unknown"), Ok(BltOrder::unknown()));
    assert_eq!(BltOrder::unknown().to_text(), "unknown");
    assert_eq!(
        BltOrder::parse("unknown, unknown"),
        Err("Unknown Blt Ordering: unknown, unknown.".to_string())
    );
    assert!(BltOrder::parse("time, time").is_err());
    let keys = [
        BltOrders::Ant1,
        BltOrders::Ant2,
        BltOrders::Time,
        BltOrders::Baseline,
    ];
    let mut listed = 0;
    for major in keys {
        for minor in keys {
            let o = BltOrder { major, minor };
            if let Ok(p) = BltOrder::parse(&o.to_text()) {
                assert_eq!(p, o);
                listed += 1;
            }
        }
    }
    assert_eq!(listed, 12);
}

// ---------------------------------------------------------------- baselines

#[test]
fn baseline_round_trip_both_encodings() {
    let a1 = vec![0u32, 5, 254, 17];
    let a2 = vec![1u32, 254, 3, 17];
    for attempt256 in [false, true] {
        let bls = antnums_to_baseline(&a1, &a2, attempt256);
        let (b1, b2) = baseline_to_antnums(&bls, attempt256);
        assert_eq!(b1, a1);
        assert_eq!(b2, a2);
    }
}

#[test]
fn baseline_256_needs_small_numbers() {
    let bls = antnums_to_baseline(&vec![255u32, 1], &vec![0u32, 1], true);
    assert_eq!(bls, vec![2048 * 256 + 1 + 65536, 256 * 2 + 2]);
    assert_eq!(antnums_to_baseline(&vec![], &vec![], false), Vec::<u32>::new());
}

#[test]
fn distinct_baselines_counted() {
    assert_eq!(count_distinct(&vec![5, 7, 5, 9, 7]), 3);
    assert_eq!(count_distinct(&vec![]), 0);
}

// ---------------------------------------------------------------- history

#[test]
fn history_stamp_appended_once() {
    assert_eq!(print_version_str(), STAMP);
    let once = stamp_history("made");
    assert_eq!(once, format!("made{}", STAMP));
    assert_eq!(stamp_history(&once), once);
    let spaced = "x Read/Written with\nuvdata-rust 0.1.0.";
    assert_eq!(stamp_history(spaced), spaced);
    assert_eq!(stamp_history(""), STAMP);
}

// ---------------------------------------------------------------- model

#[test]
fn default_meta_and_arrays() {
    let meta = UVMeta::default();
    assert_eq!(meta.nphases, 1);
    assert_eq!((meta.nbls, meta.nblts, meta.nspws, meta.npols), (0, 0, 0, 0));
    assert_eq!((meta.ntimes, meta.nfreqs, meta.nants_data, meta.nants_telescope), (0, 0, 0, 0));
    assert_eq!(meta.vis_units, VisUnit::Uncalib);
    assert_eq!(meta.phase_type, PhaseType::Drift);
    assert_eq!(meta.x_orientation, Orientation::Unknown);
    assert_eq!(meta.eq_coeffs_convention, EqConvention::Unknown);
    assert_eq!(meta.blt_order, BltOrder::unknown());
    assert_eq!(meta.telescope_location, [0u64; 3]);
    assert_eq!(meta.history, "");
    let arrays = ArrayMetaData::new(&meta);
    assert!(arrays.time_array.is_empty() && arrays.freq_array.is_empty());
    assert!(arrays.antenna_names.is_empty() && arrays.uvw_array.is_empty());
    assert!(arrays.phase_center_id_array.is_empty());
    assert_eq!(
        arrays.phase_center_catalog.entries,
        vec![(
            "zenith_0".to_string(),
            CatTypes::Unphased(UnphasedVal {
                cat_id: 0,
                cat_type: "unphased".to_string()
            })
        )]
    );
}

#[test]
fn arrays_sized_by_counts() {
    let mut meta = UVMeta::new();
    meta.nblts = 4;
    meta.nfreqs = 3;
    meta.nants_telescope = 12;
    meta.nphases = 3;
    meta.npols = 2;
    let arrays = ArrayMetaData::new(&meta);
    assert_eq!(arrays.time_array, vec![0u64; 4]);
    assert_eq!(arrays.uvw_array.len(), 4);
    assert_eq!(arrays.channel_width, vec![0u64; 3]);
    assert_eq!(arrays.polarization_array, vec![0i8; 2]);
    let names: Vec<String> = (0..12).map(|i| i.to_string()).collect();
    assert_eq!(arrays.antenna_names, names);
    let cat = &arrays.phase_center_catalog.entries;
    assert_eq!(cat.len(), 3);
    assert_eq!(cat[2].0, "zenith_2");
    assert_eq!(
        cat[2].1,
        CatTypes::Unphased(UnphasedVal {
            cat_id: 2,
            cat_type: "unphased".to_string()
        })
    );
}

#[test]
fn new_dataset_cube_shapes() {
    let mut meta = UVMeta::new();
    meta.nblts = 3;
    meta.ntimes = 2;
    meta.npols = 4;
    let uvd = UVData::new(meta.clone(), false);
    let data = uvd.data_array.unwrap();
    assert_eq!((data.dim0, data.dim1, data.dim2), (3, 2, 4));
    assert_eq!(data.data.len(), 24);
    assert!(data.data.iter().all(|c| c.re == 0 && c.im == 0));
    assert_eq!(uvd.flag_array.unwrap().data, vec![false; 24]);
    assert_eq!(uvd.nsample_array.unwrap().data, vec![0u32; 24]);
    let meta_only = UVData::new(meta, true);
    assert!(meta_only.data_array.is_none() && meta_only.flag_array.is_none());
}

#[test]
fn catalog_insert_replaces_by_name() {
    let mut cat = Catalog::new();
    let u = |id| CatTypes::Unphased(UnphasedVal {
        cat_id: id,
        cat_type: "unphased".to_string(),
    });
    cat.insert("a".to_string(), u(0));
    cat.insert("b".to_string(), u(1));
    cat.insert("a".to_string(), u(2));
    assert_eq!(cat.count(), 2);
    assert_eq!(cat.entries[0], ("a".to_string(), u(2)));
    assert_eq!(zenith_catalog(0).count(), 0);
}

// ---------------------------------------------------------------- shapes

#[test]
fn legacy_frequency_shapes() {
    let one = flat(vec![1u64, 2, 3]);
    let two = StoredArray {
        shape: vec![1, 3],
        data: vec![1u64, 2, 3],
    };
    assert_eq!(squeeze_rows(&one), Ok(vec![1, 2, 3]));
    assert_eq!(squeeze_rows(&two), squeeze_rows(&one));
    let three = StoredArray {
        shape: vec![1, 1, 3],
        data: vec![1u64, 2, 3],
    };
    assert_eq!(squeeze_rows(&three), Err(ShapeError::Rank(3)));
    let scalar = StoredArray {
        shape: vec![],
        data: vec![9u64],
    };
    assert_eq!(broadcast(&scalar, 3), Ok(vec![9, 9, 9]));
    assert_eq!(broadcast(&two, 3), Ok(vec![1, 2, 3]));
    assert_eq!(broadcast(&one, 3), Ok(vec![1, 2, 3]));
    assert_eq!(broadcast(&three, 3), Err(ShapeError::Rank(3)));
}

#[test]
fn legacy_cube_shapes() {
    let data: Vec<u32> = (0..8).collect();
    let c3 = StoredArray {
        shape: vec![2, 2, 2],
        data: data.clone(),
    };
    let c4 = StoredArray {
        shape: vec![2, 1, 2, 2],
        data: data.clone(),
    };
    assert_eq!(squeeze_cube(&c3), squeeze_cube(&c4));
    let two_windows = StoredArray {
        shape: vec![2, 2, 1, 2],
        data: data.clone(),
    };
    assert_eq!(
        squeeze_cube(&two_windows),
        Ok(Cube {
            dim0: 2,
            dim1: 1,
            dim2: 2,
            data: vec![0, 1, 4, 5]
        })
    );
    let bad = StoredArray {
        shape: vec![2, 2, 3],
        data,
    };
    assert_eq!(squeeze_cube(&bad), Err(ShapeError::Inconsistent));
    let flat2 = StoredArray {
        shape: vec![2, 4],
        data: vec![0u32; 8],
    };
    assert_eq!(squeeze_cube(&flat2), Err(ShapeError::Rank(2)));
}

// ---------------------------------------------------------------- reading

#[test]
fn read_drift_file_without_catalog() {
    let uvd = read_file(sample_file()).unwrap();
    assert_eq!(uvd.meta.nbls, 1);
    assert_eq!(uvd.meta.vis_units, VisUnit::Jansky);
    assert_eq!(uvd.meta.phase_type, PhaseType::Drift);
    assert_eq!(uvd.meta.x_orientation, Orientation::Unknown);
    assert_eq!(uvd.meta.blt_order, BltOrder::unknown());
    assert_eq!(uvd.meta.nphases, 1);
    assert_eq!(uvd.meta.object_name, "zenith");
    assert_eq!(uvd.meta.history, format!("made{}", STAMP));
    assert_eq!(uvd.meta.uvplane_reference_time, Some(7));
    assert_eq!(uvd.meta_arrays.baseline_array, vec![2048 + 2 + 65536; 2]);
    assert_eq!(uvd.meta_arrays.freq_array, vec![bits(100.0), bits(101.0)]);
    assert_eq!(uvd.meta_arrays.channel_width, vec![bits(1.0); 2]);
    assert_eq!(uvd.meta_arrays.spw_id_array, vec![0, 0]);
    assert_eq!(
        uvd.meta_arrays.phase_center_catalog.entries,
        vec![(
            "zenith".to_string(),
            CatTypes::Unphased(UnphasedVal {
                cat_id: 0,
                cat_type: "unphased".to_string()
            })
        )]
    );
    assert_eq!(uvd.meta_arrays.phase_center_id_array, vec![0, 0]);
    assert!(uvd.data_array.is_none());
}

#[test]
fn read_phased_file_without_catalog() {
    let mut f = sample_file();
    f.header.phase_type = Some("phased".to_string());
    f.header.phase_center_ra = Some(bits(1.25));
    f.header.phase_center_dec = Some(bits(-0.5));
    f.header.phase_center_epoch = Some(bits(2000.0));
    f.header.phase_center_frame = Some("FK5".to_string());
    let uvd = read_file(f).unwrap();
    let expected = SiderealVal {
        cat_id: 0,
        cat_type: "sidereal".to_string(),
        cat_lon: bits(1.25),
        cat_lat: bits(-0.5),
        cat_frame: "fk5".to_string(),
        cat_epoch: bits(2000.0),
        cat_pm_ra: None,
        cat_pm_dec: None,
        cat_dist: None,
        cat_vrad: None,
        info_source: Some("UVData".to_string()),
    };
    assert_eq!(
        uvd.meta_arrays.phase_center_catalog.entries,
        vec![("zenith".to_string(), CatTypes::Sidereal(expected))]
    );

    let mut missing = sample_file();
    missing.header.phase_type = Some("phased".to_string());
    missing.header.phase_center_ra = Some(bits(1.0));
    assert_eq!(
        read_file(missing).unwrap_err(),
        FormatError::Missing(Field::PhaseCenterDec)
    );
}

#[test]
fn read_channel_width_in_any_legacy_shape() {
    let widths = vec![bits(1.5), bits(2.5)];
    let mut flat1 = sample_file();
    flat1.arrays.channel_width = flat(widths.clone());
    let mut two_d = sample_file();
    two_d.arrays.channel_width = StoredArray {
        shape: vec![1, 2],
        data: widths.clone(),
    };
    let a = read_file(flat1).unwrap();
    let b = read_file(two_d).unwrap();
    assert_eq!(a.meta_arrays.channel_width, widths);
    assert_eq!(b.meta_arrays.channel_width, widths);
    let scalar = read_file(sample_file()).unwrap();
    assert_eq!(scalar.meta_arrays.channel_width, vec![bits(1.0); 2]);
}

#[test]
fn keywords_parse_through_from_str() {
    let keys = [
        BltOrders::Ant1,
        BltOrders::Ant2,
        BltOrders::Time,
        BltOrders::Baseline,
        BltOrders::Bda,
        BltOrders::Unknown,
    ];
    for major in keys {
        for minor in keys {
            let o = BltOrder { major, minor };
            let pair_key = |k: BltOrders| !matches!(k, BltOrders::Bda | BltOrders::Unknown);
            let listed = (major == BltOrders::Bda && minor == BltOrders::Bda)
                || (major == BltOrders::Unknown && minor == BltOrders::Unknown)
                || (major != minor && pair_key(major) && pair_key(minor));
            if listed {
                assert_eq!(o.to_text().parse::<BltOrder>(), Ok(o));
            } else {
                assert_ne!(o.to_text().parse::<BltOrder>(), Ok(o));
            }
        }
    }
    assert_eq!("K STR".parse::<VisUnit>(), Ok(VisUnit::Kelvinstr));
    assert!("kelvin".parse::<VisUnit>().is_err());
    assert_eq!(" north ".parse::<Orientation>(), Ok(Orientation::North));
    assert_eq!("Multiply".parse::<EqConvention>(), Ok(EqConvention::Multiply));
}

#[test]
fn read_keyword_error_carries_message() {
    let mut f = sample_file();
    f.header.vis_units = Some(" Jansky ".to_string());
    assert_eq!(
        read_file(f).unwrap_err(),
        FormatError::Keyword(Field::VisUnits, "Unknown Visibility Unit: jansky.".to_string())
    );
}

#[test]
fn read_multi_file_without_catalog_has_none() {
    let mut f = sample_file();
    f.header.phase_type = Some("multi".to_string());
    let uvd = read_file(f).unwrap();
    assert_eq!(uvd.meta_arrays.phase_center_catalog.count(), 0);
}

#[test]
fn read_errors() {
    let mut f = sample_file();
    f.header.nblts = None;
    f.header.instrument = None;
    assert_eq!(read_file(f).unwrap_err(), FormatError::Missing(Field::Instrument));

    let mut f = sample_file();
    f.header.x_orientation = Some("west".to_string());
    assert_eq!(
        read_file(f).unwrap_err(),
        FormatError::Keyword(Field::XOrientation, "Unknown Orientation: west.".to_string())
    );

    let mut f = sample_file();
    f.arrays.freq_array.shape = vec![1, 1, 2];
    assert_eq!(read_file(f).unwrap_err(), FormatError::Rank(Field::FreqArray, 3));

    let mut f = sample_file();
    f.arrays.channel_width = StoredArray {
        shape: vec![1, 1, 2],
        data: vec![0, 0],
    };
    assert_eq!(read_file(f).unwrap_err(), FormatError::Rank(Field::ChannelWidth, 3));

    let mut f = sample_file();
    f.arrays.ant_2_array = vec![1];
    assert_eq!(read_file(f).unwrap_err(), FormatError::AntennaRange);

    let mut f = sample_file();
    f.arrays.ant_1_array = vec![3_000_000, 0];
    assert_eq!(read_file(f).unwrap_err(), FormatError::AntennaRange);

    let mut f = sample_file();
    let mut d = sample_data();
    d.flags.shape = vec![4];
    f.data = Some(d);
    assert_eq!(read_file(f).unwrap_err(), FormatError::Rank(Field::Flags, 1));
}

#[test]
fn read_cubes_drop_window_axis() {
    let mut f = sample_file();
    f.data = Some(sample_data());
    let uvd = read_file(f).unwrap();
    let vis = uvd.data_array.unwrap();
    assert_eq!((vis.dim0, vis.dim1, vis.dim2), (2, 2, 1));
    assert_eq!(vis.data[3].re, bits(3.0));
    assert_eq!(uvd.flag_array.unwrap().data, vec![false, true, false, true]);
}

#[test]
fn read_catalog_group() {
    let mut f = sample_file();
    let u = |id| CatTypes::Unphased(UnphasedVal {
        cat_id: id,
        cat_type: "unphased".to_string(),
    });
    f.header.nphase = Some(2);
    f.arrays.phase_center_catalog = Some(vec![("one".to_string(), u(0)), ("two".to_string(), u(1))]);
    f.arrays.phase_center_id_array = Some(vec![1, 0]);
    let uvd = read_file(f).unwrap();
    assert_eq!(uvd.meta.nphases, 2);
    assert_eq!(uvd.meta_arrays.phase_center_catalog.count(), 2);
    assert_eq!(uvd.meta_arrays.phase_center_id_array, vec![1, 0]);
}

// ---------------------------------------------------------------- writing

#[test]
fn write_refuses_metadata_only_and_bad_catalogs() {
    let uvd = read_file(sample_file()).unwrap();
    assert_eq!(write_file(uvd).unwrap_err(), FormatError::MetadataOnly);

    let mut f = sample_file();
    f.data = Some(sample_data());
    let mut uvd = read_file(f).unwrap();
    uvd.meta_arrays.phase_center_catalog = Catalog::new();
    assert_eq!(write_file(uvd).unwrap_err(), FormatError::InvalidCatalog);
}

#[test]
fn write_drift_dataset() {
    let mut f = sample_file();
    f.data = Some(sample_data());
    let uvd = read_file(f).unwrap();
    let out = write_file(uvd).unwrap();
    assert_eq!(out.header.phase_type, Some("drift".to_string()));
    assert_eq!(out.header.vis_units, Some("jy".to_string()));
    assert_eq!(out.header.blt_order, None);
    assert_eq!(out.header.x_orientation, None);
    assert_eq!(out.header.nphase, None);
    assert_eq!(out.header.history, Some(format!("made{}", STAMP)));
    assert!(out.arrays.phase_center_catalog.is_none());
    assert_eq!(out.arrays.flex_spw_id_array, Some(vec![0, 0]));
    assert_eq!(out.data.unwrap().visdata.shape, vec![2, 2, 1]);
}

#[test]
fn write_sidereal_uses_read_mapping() {
    let mut f = sample_file();
    f.data = Some(sample_data());
    f.header.phase_type = Some("phased".to_string());
    f.header.phase_center_ra = Some(bits(1.25));
    f.header.phase_center_dec = Some(bits(-0.5));
    f.header.phase_center_epoch = Some(bits(2000.0));
    let uvd = read_file(f).unwrap();
    let out = write_file(uvd).unwrap();
    assert_eq!(out.header.phase_type, Some("phased".to_string()));
    assert_eq!(out.header.phase_center_ra, Some(bits(1.25)));
    assert_eq!(out.header.phase_center_dec, Some(bits(-0.5)));
    assert_eq!(out.header.phase_center_frame, Some("unknown".to_string()));
}

#[test]
fn write_then_read_gives_back_the_dataset() {
    let mut f = sample_file();
    f.data = Some(sample_data());
    f.header.blt_order = Some("time, baseline".to_string());
    f.header.x_orientation = Some("east".to_string());
    f.header.eq_coeffs_convention = Some("divide".to_string());
    let uvd = read_file(f).unwrap();
    let again = read_file(write_file(uvd.clone()).unwrap()).unwrap();
    assert_eq!(again, uvd);
}

#[test]
fn write_then_read_multi_phase() {
    let mut f = sample_file();
    f.data = Some(sample_data());
    let u = |id| CatTypes::Unphased(UnphasedVal {
        cat_id: id,
        cat_type: "unphased".to_string(),
    });
    f.header.nphase = Some(2);
    f.header.phase_type = Some("multi".to_string());
    f.arrays.phase_center_catalog = Some(vec![("one".to_string(), u(0)), ("two".to_string(), u(1))]);
    f.arrays.phase_center_id_array = Some(vec![1, 0]);
    let uvd = read_file(f).unwrap();
    let out = write_file(uvd.clone()).unwrap();
    assert_eq!(out.header.nphase, Some(2));
    assert_eq!(out.arrays.phase_center_id_array, Some(vec![1, 0]));
    assert_eq!(read_file(out).unwrap(), uvd);
}

// ---------------------------------------------------------------- agreement

#[test]
fn exact_parts_of_equality() {
    let mut f = sample_file();
    f.data = Some(sample_data());
    let uvd = read_file(f).unwrap();
    assert!(uvdata_match(&uvd, &uvd.clone()));

    let mut other = uvd.meta.clone();
    other.telescope_location = [bits(9.0); 3];
    assert!(meta_match(&uvd.meta, &other));
    other.dut1 = Some(1.0f32.to_bits());
    assert!(!meta_match(&uvd.meta, &other));
    let mut other = uvd.meta.clone();
    other.instrument = "Other".to_string();
    assert!(!meta_match(&uvd.meta, &other));

    let mut flipped = uvd.clone();
    if let Some(flags) = flipped.flag_array.as_mut() {
        flags.data[0] = !flags.data[0];
    }
    assert!(!uvdata_match(&uvd, &flipped));

    let u = |id| CatTypes::Unphased(UnphasedVal {
        cat_id: id,
        cat_type: "unphased".to_string(),
    });
    let mut a = Catalog::new();
    a.insert("x".to_string(), u(0));
    a.insert("y".to_string(), u(1));
    let mut b = Catalog::new();
    b.insert("y".to_string(), u(1));
    b.insert("x".to_string(), u(0));
    assert!(b.has_distinct_names());
    assert!(catalog_match(&a, &b));
    let mut c = Catalog::new();
    c.insert("y".to_string(), u(0));
    c.insert("x".to_string(), u(1));
    assert!(!catalog_match(&a, &c));
    assert!(!entry_match(&u(0), &u(1)));
    let dup = Catalog {
        entries: vec![("x".to_string(), u(0)), ("x".to_string(), u(1))],
    };
    assert!(!dup.has_distinct_names());
}
