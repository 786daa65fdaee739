use schismrs_bctides::options::{
    baroclinic_db_required, boundary_key, constituents_from_switches, elev_th_required,
    elevation_config_type, tidal_database, tidal_db_required, time_series_database,
    tracer_config_type, velocity_config_type, ElevationConfigType, TracerConfigType,
    VelocityConfigType,
};
use schismrs_bctides::tides::{ConstituentsConfig, TidalDatabase, TimeSeriesDatabase};

#[test]
fn forcing_type_values_name_types() {
    assert_eq!(elevation_config_type("5"), Some(ElevationConfigType::TidesAndSpaceVaryingTimeSeries));
    assert_eq!(elevation_config_type("-1"), Some(ElevationConfigType::EqualToZero));
    assert_eq!(elevation_config_type("6"), None);
    assert_eq!(velocity_config_type("-1"), Some(VelocityConfigType::Flather));
    assert_eq!(velocity_config_type("3"), Some(VelocityConfigType::Tides));
    assert_eq!(tracer_config_type("3"), Some(TracerConfigType::RelaxToInitialConditions));
    assert_eq!(tracer_config_type("5"), None);
    assert_eq!(tidal_database("hamtide"), Some(TidalDatabase::HAMTIDE));
    assert_eq!(tidal_database("TPXO"), None);
    assert_eq!(time_series_database("hycom"), Some(TimeSeriesDatabase::HYCOM));
    assert!(tidal_db_required("3") && tidal_db_required("5") && !tidal_db_required("4"));
    assert!(baroclinic_db_required("4") && baroclinic_db_required("5") && !baroclinic_db_required("3"));
    assert!(elev_th_required("1") && !elev_th_required("2"));
}

#[test]
fn switches_select_constituents() {
    let each = vec![false; 15];
    assert_eq!(constituents_from_switches(true, false, false, &each), Some(ConstituentsConfig::all()));
    assert_eq!(constituents_from_switches(false, true, false, &each), Some(ConstituentsConfig::major()));
    assert_eq!(constituents_from_switches(false, false, true, &each), Some(ConstituentsConfig::minor()));
    assert_eq!(constituents_from_switches(true, true, false, &each), None);
    let mut each = vec![false; 15];
    each[5] = true;
    each[13] = true;
    let c = constituents_from_switches(false, false, false, &each).unwrap();
    assert!(c.M2 && c._2N2 && !c.S2);
    assert_eq!(c.values(), each);
}

#[test]
fn option_ids_name_zero_based_segments() {
    assert_eq!(boundary_key("elevation-3", "elevation"), Some(2));
    assert_eq!(boundary_key("elevation-1", "elevation"), Some(0));
    assert_eq!(boundary_key("elevation-0", "elevation"), None);
    assert_eq!(boundary_key("elevation-1-tidal-db", "elevation"), None);
    assert_eq!(boundary_key("elevation-", "elevation"), None);
    assert_eq!(boundary_key("velocity-2", "elevation"), None);
    assert_eq!(boundary_key("elevation-4294967296", "elevation"), Some(4294967295));
    assert_eq!(boundary_key("elevation-4294967297", "elevation"), None);
    assert_eq!(boundary_key("elevation-99999999999999999999", "elevation"), None);
    assert_eq!(boundary_key("salinity-12", "salinity"), Some(11));
}
