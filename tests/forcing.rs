use schismrs_bctides::bctides::{BctidesBuilder, BctidesBuilderError};
use schismrs_bctides::bctypes::{Bctype, FloatBits, TimeSeries};
use schismrs_bctides::constituent::Constituent;
use schismrs_bctides::date::UtcDateTime;
use schismrs_bctides::file_deck::{ATCFFileDeck, FileDeckKind};
use schismrs_bctides::flags::{
    get_all_tidal_constituents_base_name, get_base_name, get_baroclinic_db_base_name,
    get_baroclinic_db_help, get_constituent_flag_base_name, get_elev_th_base_name,
    get_elev_th_help, get_leaked_string, get_major_tidal_constituents_base_name,
    get_minor_tidal_constituents_base_name, get_tidal_db_base_name, get_tidal_db_help,
    get_variable_help,
};
use schismrs_bctides::forcing::{
    get_bctypes_line, BoundaryForcingConfig, BoundaryForcingConfigBuilder,
    BoundaryForcingConfigBuilderError,
};
use schismrs_bctides::tidefac::RunDuration;
use schismrs_bctides::tides::{
    ConstituentsConfig, ConstituentsConfigError, SpaceVaryingTimeSeriesConfig, TidalDatabase,
    TidesConfig, TimeSeriesDatabase,
};
use schismrs_bctides::{ElevationConfig, SalinityConfig, TemperatureConfig, VelocityConfig};
use std::collections::BTreeMap;

fn tides(names: &[&str]) -> TidesConfig {
    let mut c = ConstituentsConfig::default();
    for n in names {
        c.set_by_name(n, true).unwrap();
    }
    TidesConfig { constituents: c, database: TidalDatabase::TPXO }
}

fn three_segments() -> Vec<Vec<u32>> {
    vec![vec![1, 2, 3], vec![4, 5], vec![6]]
}

#[test]
fn all_forcing_has_every_major_and_minor_constituent() {
    let all = ConstituentsConfig::all();
    let afc = all.get_active_forcing_constituents();
    assert_eq!(afc.len(), 15);
    let names: Vec<&str> = afc.to_vec().iter().map(|c| c.name()).collect();
    assert_eq!(
        names,
        vec!["Q1", "O1", "P1", "K1", "N2", "M2", "S2", "K2", "Mm", "Mf", "M4", "MN4", "MS4", "2N2", "S1"]
    );
    assert_eq!(all.get_active_potential_constituents().len(), 8);
}

#[test]
fn major_potential_equals_major_forcing() {
    let major = ConstituentsConfig::major();
    assert_eq!(
        major.get_active_potential_constituents().to_vec(),
        major.get_active_forcing_constituents().to_vec()
    );
    let minor = ConstituentsConfig::minor();
    assert_eq!(minor.get_active_potential_constituents().len(), 0);
    assert_eq!(minor.get_active_forcing_constituents().len(), 7);
    assert_eq!(ConstituentsConfig::default().get_active_forcing_constituents().len(), 0);
}

#[test]
fn set_by_name_maps_digit_names_and_refuses_unknown_ones() {
    let mut c = ConstituentsConfig::default();
    c.set_by_name("2N2", true).unwrap();
    assert!(c._2N2);
    c.set_by_name("_2N2", false).unwrap();
    assert!(!c._2N2);
    c.set_by_name("M2", true).unwrap();
    assert!(c.M2);
    let before = c;
    match c.set_by_name("XYZ", true) {
        Err(ConstituentsConfigError::UnknownField(name)) => assert_eq!(name, "XYZ"),
        other => panic!("unexpected {:?}", other),
    }
    assert_eq!(c, before);
    assert!(c.set_by_name("2Q1", true).is_err());
    assert_eq!(ConstituentsConfig::field_names()[13], "_2N2");
    assert_eq!(c.values()[5], true);
    assert_eq!(c.values().len(), 15);
}

#[test]
fn forcing_set_keeps_first_seen_order() {
    let mut elevation = BTreeMap::new();
    elevation.insert(0u32, ElevationConfig::Tides(tides(&["M2", "S2"])));
    elevation.insert(1u32, ElevationConfig::Tides(tides(&["K1"])));
    elevation.insert(2u32, ElevationConfig::Tides(tides(&["M2"])));
    let cfg = BoundaryForcingConfigBuilder::default()
        .hgrid(three_segments())
        .elevation(elevation)
        .build()
        .unwrap();
    let afc = cfg.get_active_forcing_constituents_set().to_vec();
    assert_eq!(afc, vec![Constituent::M2, Constituent::S2, Constituent::K1]);
    let apc = cfg.get_active_potential_constituents_set().to_vec();
    assert_eq!(apc, vec![Constituent::M2, Constituent::S2, Constituent::K1]);
}

#[test]
fn elevation_before_velocity_within_a_segment() {
    let mut elevation = BTreeMap::new();
    elevation.insert(1u32, ElevationConfig::Tides(tides(&["K1", "Mf"])));
    let mut velocity = BTreeMap::new();
    velocity.insert(
        0u32,
        VelocityConfig::TidesAndSpaceVaryingTimeSeries {
            tides: tides(&["O1", "M4"]),
            time_series: SpaceVaryingTimeSeriesConfig { database: TimeSeriesDatabase::HYCOM },
        },
    );
    velocity.insert(1u32, VelocityConfig::Tides(tides(&["O1", "M2"])));
    let cfg = BoundaryForcingConfigBuilder::default()
        .hgrid(three_segments())
        .elevation(elevation)
        .velocity(velocity)
        .build()
        .unwrap();
    let afc = cfg.get_active_forcing_constituents_set().to_vec();
    assert_eq!(
        afc,
        vec![Constituent::O1, Constituent::M4, Constituent::K1, Constituent::Mf, Constituent::M2]
    );
    let apc = cfg.get_active_potential_constituents_set().to_vec();
    assert_eq!(apc, vec![Constituent::O1, Constituent::K1, Constituent::M2]);
}

#[test]
fn boundary_type_codes() {
    assert_eq!(ElevationConfig::Tides(tides(&["M2"])).ibtype(), 3);
    assert_eq!(ElevationConfig::EqualToZero.ibtype(), -1);
    assert_eq!(ElevationConfig::ConstantValue(FloatBits { bits: 1.5f64.to_bits() }).ibtype(), 2);
    assert_eq!(
        ElevationConfig::UniformTimeSeries(TimeSeries { points: vec![(0, FloatBits { bits: 0 })] }).ibtype(),
        1
    );
    assert_eq!(VelocityConfig::Flather.ibtype(), -1);
    assert_eq!(
        VelocityConfig::SpaceVaryingTimeSeries(SpaceVaryingTimeSeriesConfig {
            database: TimeSeriesDatabase::HYCOM
        })
        .ibtype(),
        4
    );
    assert_eq!(TemperatureConfig::RelaxToInitialConditions.ibtype(), 3);
    assert_eq!(SalinityConfig::RelaxToConstantValue(FloatBits { bits: 0 }).ibtype(), 2);

    let mut elevation = BTreeMap::new();
    elevation.insert(0u32, ElevationConfig::Tides(tides(&["M2"])));
    let mut salinity = BTreeMap::new();
    salinity.insert(1u32, SalinityConfig::RelaxToInitialConditions);
    let cfg = BoundaryForcingConfigBuilder::default()
        .hgrid(three_segments())
        .elevation(elevation)
        .salinity(salinity)
        .build()
        .unwrap();
    assert_eq!(cfg.bctypes(0), vec![3, 0, 0, 0]);
    assert_eq!(cfg.bctypes(1), vec![0, 0, 0, 3]);
    assert_eq!(cfg.bctypes(2), vec![0, 0, 0, 0]);
}

#[test]
fn bctypes_line_lists_node_count_then_codes() {
    assert_eq!(get_bctypes_line(&vec![7, 8, 9], vec![3, 0, -1, 0]), "3 3 0 -1 0");
    assert_eq!(get_bctypes_line(&vec![], vec![]), "0");
    assert_eq!(get_bctypes_line(&(0..12).collect(), vec![5]), "12 5");
}

#[test]
fn missing_hgrid_is_reported() {
    match BoundaryForcingConfigBuilder::default().build() {
        Err(BoundaryForcingConfigBuilderError::UninitializedFieldError(name)) => assert_eq!(name, "hgrid"),
        other => panic!("unexpected {:?}", other.is_ok()),
    }
}

fn sandy_config() -> BoundaryForcingConfig {
    let mut elevation = BTreeMap::new();
    elevation.insert(0u32, ElevationConfig::Tides(tides(&["M2", "Mf"])));
    let mut velocity = BTreeMap::new();
    velocity.insert(0u32, VelocityConfig::Flather);
    BoundaryForcingConfigBuilder::default()
        .hgrid(vec![vec![1, 2, 3, 4], vec![5, 6]])
        .elevation(elevation)
        .velocity(velocity)
        .build()
        .unwrap()
}

fn sandy_builder(depth: f64) -> BctidesBuilder {
    BctidesBuilder::default()
        .start_date(UtcDateTime::new(2012, 10, 29, 0, 0, 0).unwrap())
        .run_duration(RunDuration::from_parts(864000, 0).unwrap())
        .tidal_potential_cutoff_depth(FloatBits { bits: depth.to_bits() })
        .boundary_forcing_config(sandy_config())
}

#[test]
fn render_lays_out_the_file() {
    let b = sandy_builder(50.0).build().unwrap();
    assert_eq!(b.get_active_potential_constituents_set().to_vec(), vec![Constituent::M2]);
    assert_eq!(
        b.get_active_forcing_constituents_set().to_vec(),
        vec![Constituent::M2, Constituent::Mf]
    );
    let text = b.render(
        "50",
        &vec!["2 0.242334 0.0001405189025086 1.0 2.0".to_string()],
        &vec!["0.0001405189025086 1.0 2.0".to_string(), "0.0000053234146919 3.0 4.0".to_string()],
    );
    let expected = "2012-10-29 00:00:00 UTC\n\
1 50 !# number of tidal potential and cut-off depth\n\
M2\n2 0.242334 0.0001405189025086 1.0 2.0\n\
2 !# of boundary tidal frequencies\n\
M2\n 0.0001405189025086 1.0 2.0\n\
Mf\n 0.0000053234146919 3.0 4.0\n\
2 !# number of open bnd segs\n\
4 3 -1 0 0\n\
2 0 0 0 0\n";
    assert_eq!(text, expected);
    let again = b.render(
        "50",
        &vec!["2 0.242334 0.0001405189025086 1.0 2.0".to_string()],
        &vec!["0.0001405189025086 1.0 2.0".to_string(), "0.0000053234146919 3.0 4.0".to_string()],
    );
    assert_eq!(text, again);
    assert_eq!(b.get_bctypes_vec(0), vec![3, -1, 0, 0]);
}

#[test]
fn negative_cutoff_depth_is_refused() {
    assert!(matches!(
        sandy_builder(-1.0).build(),
        Err(BctidesBuilderError::InvalidTidalPotentialCutoffDepth)
    ));
    assert!(sandy_builder(-0.0).build().is_ok());
    assert!(sandy_builder(0.0).build().is_ok());
    assert!(sandy_builder(f64::NAN).build().is_ok());
    assert!(matches!(
        sandy_builder(f64::NEG_INFINITY).build(),
        Err(BctidesBuilderError::InvalidTidalPotentialCutoffDepth)
    ));
}

#[test]
fn unset_parts_are_named_in_field_order() {
    let name = |r: Result<_, BctidesBuilderError>| match r {
        Err(BctidesBuilderError::UninitializedFieldError(n)) => n,
        _ => String::from("none"),
    };
    assert_eq!(name(BctidesBuilder::default().build().map(|_| ())), "start_date");
    let b = BctidesBuilder::default().start_date(UtcDateTime::new(2020, 1, 1, 0, 0, 0).unwrap());
    assert_eq!(name(b.build().map(|_| ())), "run_duration");
    let b = BctidesBuilder::default()
        .start_date(UtcDateTime::new(2020, 1, 1, 0, 0, 0).unwrap())
        .run_duration(RunDuration::from_parts(60, 0).unwrap());
    assert_eq!(name(b.build().map(|_| ())), "tidal_potential_cutoff_depth");
    let b = BctidesBuilder::default()
        .start_date(UtcDateTime::new(2020, 1, 1, 0, 0, 0).unwrap())
        .run_duration(RunDuration::from_parts(60, 0).unwrap())
        .tidal_potential_cutoff_depth(FloatBits { bits: 0 });
    assert_eq!(name(b.build().map(|_| ())), "boundary_forcing_config");
}

#[test]
fn option_names_and_help_texts() {
    assert_eq!(get_base_name(&0, "Elevation"), "elevation-1");
    assert_eq!(get_tidal_db_base_name(&1, "Velocity"), "velocity-2-tidal-db");
    assert_eq!(get_all_tidal_constituents_base_name(&0, "Elevation"), "elevation-1-all");
    assert_eq!(get_major_tidal_constituents_base_name(&9, "Elevation"), "elevation-10-major");
    assert_eq!(get_minor_tidal_constituents_base_name(&0, "Velocity"), "velocity-1-minor");
    assert_eq!(get_constituent_flag_base_name(&2, "Elevation", "M2"), "elevation-3-M2");
    assert_eq!(get_baroclinic_db_base_name(&0, "Temperature"), "temperature-1-baroclinic-db");
    assert_eq!(get_elev_th_base_name(&4), "elev-th-5");
    assert_eq!(
        get_variable_help(&0, "Salinity"),
        "Sets the forcing type for salinity on boundary with id = 1"
    );
    assert_eq!(
        get_tidal_db_help(&1, "Elevation"),
        "Sets the tidal database for elevation on boundary with id = 2"
    );
    assert_eq!(
        get_baroclinic_db_help(&0, "Velocity"),
        "Sets the baroclinic database for velocity on boundary with id = 1"
    );
    assert_eq!(
        get_elev_th_help(&0),
        "Path to elev.th file. Required if using elevation of type 1 on boundary id 1 "
    );
    assert_eq!(get_leaked_string(String::from("abc")), "abc");
}

#[test]
fn file_deck_kinds_map_to_decks() {
    assert_eq!(FileDeckKind::ADVISORY.to_atcf_file_deck(), ATCFFileDeck::ADVISORY);
    assert_eq!(FileDeckKind::BEST.to_atcf_file_deck(), ATCFFileDeck::BEST);
    assert_eq!(FileDeckKind::FIXED.to_atcf_file_deck(), ATCFFileDeck::FIXED);
    assert_eq!(TidalDatabase::FES, TidalDatabase::FES);
}
