use schismrs_bctides::constituent::Constituent;
use schismrs_bctides::date::UtcDateTime;
use schismrs_bctides::tidefac::{tidefac, CatalogTable, RunDuration, TidefacError};

fn sandy_start() -> UtcDateTime {
    UtcDateTime::new(2012, 10, 29, 0, 0, 0).unwrap()
}

fn ten_days() -> RunDuration {
    RunDuration::from_parts(10 * 86400, 0).unwrap()
}

const FREQUENCIES: [(&str, f64); 38] = [
    ("M4", 0.0002810378050173),
    ("M6", 0.0004215567080107),
    ("MK3", 0.0002134400613513),
    ("S4", 0.0002908882086657),
    ("MN4", 0.0002783986019952),
    ("S6", 0.0004363323129986),
    ("M3", 0.0002107783537630),
    ("2MK3", 0.0002081166466594),
    ("M8", 0.0005620756090649),
    ("MS4", 0.0002859630068415),
    ("M2", 0.0001405189025086),
    ("S2", 0.0001454441043329),
    ("N2", 0.0001378796994865),
    ("Nu2", 0.0001382329037065),
    ("MU2", 0.0001355937006844),
    ("2N2", 0.0001352404964644),
    ("lambda2", 0.0001428049013108),
    ("T2", 0.0001452450073529),
    ("R2", 0.0001456432013128),
    ("2SM2", 0.0001503693061571),
    ("L2", 0.0001431581055307),
    ("K2", 0.0001458423172006),
    ("K1", 0.0000729211583579),
    ("O1", 0.0000675977441508),
    ("OO1", 0.0000782445730498),
    ("S1", 0.0000727220521664),
    ("M1", 0.0000702594512543),
    ("J1", 0.0000755603613800),
    ("RHO", 0.0000653117453487),
    ("Q1", 0.0000649585411287),
    ("2Q1", 0.0000623193381066),
    ("P1", 0.0000725229459750),
    ("Mm", 0.0000026392030221),
    ("Ssa", 0.0000003982128677),
    ("Sa", 0.0000001991061914),
    ("Msf", 0.0000049252018242),
    ("Mf", 0.0000053234146919),
    ("Z0", 0.0),
];

#[test]
fn orbital_frequency_matches_table_for_every_entry() {
    for (name, expected) in FREQUENCIES.iter() {
        let t = tidefac(&sandy_start(), &ten_days(), name).unwrap();
        let scaled = t.orbital_frequency();
        assert_eq!(scaled as f64 / 1e16, *expected, "constituent {}", name);
        let again = tidefac(&sandy_start(), &ten_days(), name).unwrap();
        assert_eq!(again.orbital_frequency(), scaled);
    }
}

#[test]
fn every_catalog_name_round_trips() {
    let all = schismrs_bctides::constituent::catalog();
    assert_eq!(all.len(), 38);
    for c in all.iter() {
        assert_eq!(Constituent::from_name(c.name()), Some(*c));
    }
    assert_eq!(Constituent::from_name("m2"), None);
    assert_eq!(Constituent::from_name(""), None);
}

#[test]
fn m2_on_sandy_start_has_catalog_values() {
    let t = tidefac(&sandy_start(), &ten_days(), "M2").unwrap();
    assert_eq!(t.tidal_species_type().unwrap(), 2);
    let amplitude = t.tidal_potential_amplitude().unwrap();
    assert_eq!(amplitude, 242334);
    assert_eq!(amplitude as f64 / 1e6, 0.242334);
    assert_eq!(t.orbital_frequency() as f64 / 1e16, 0.0001405189025086);
    assert_eq!(t.constituent(), "M2");
    assert_eq!(t.dday(), 329);
    assert_eq!(t.dyr(), 112);
    assert_eq!(t.start_hour(), 0);
}

#[test]
fn potential_tables_cover_major_constituents() {
    let expected: [(&str, u8, u64); 9] = [
        ("M2", 2, 242334),
        ("S2", 2, 112841),
        ("N2", 2, 46398),
        ("K2", 2, 30704),
        ("K1", 1, 141565),
        ("O1", 1, 100514),
        ("P1", 1, 46843),
        ("Q1", 1, 19256),
        ("Z0", 0, 0),
    ];
    for (name, species, amplitude) in expected.iter() {
        let t = tidefac(&sandy_start(), &ten_days(), name).unwrap();
        assert_eq!(t.tidal_species_type().unwrap(), *species);
        assert_eq!(t.tidal_potential_amplitude().unwrap(), *amplitude);
    }
}

#[test]
fn constituent_missing_from_species_table_is_named() {
    let t = tidefac(&sandy_start(), &ten_days(), "M4").unwrap();
    match t.tidal_species_type() {
        Err(TidefacError::MissingConstituent { table, constituent }) => {
            assert_eq!(table, CatalogTable::TidalSpeciesType);
            assert_eq!(constituent, "M4");
        }
        other => panic!("unexpected {:?}", other),
    }
    match t.tidal_potential_amplitude() {
        Err(TidefacError::MissingConstituent { table, constituent }) => {
            assert_eq!(table, CatalogTable::TidalPotentialAmplitude);
            assert_eq!(constituent, "M4");
        }
        other => panic!("unexpected {:?}", other),
    }
}

#[test]
fn unknown_constituent_is_an_unhandled_error() {
    match tidefac(&sandy_start(), &ten_days(), "XYZ") {
        Err(TidefacError::UnhandledConstituent(name)) => assert_eq!(name, "XYZ"),
        other => panic!("unexpected {:?}", other),
    }
}

#[test]
fn leading_underscore_is_left_out() {
    let t = tidefac(&sandy_start(), &ten_days(), "_2N2").unwrap();
    assert_eq!(t.constituent, Constituent::TwoN2);
    assert_eq!(t.constituent(), "2N2");
}

#[test]
fn fractional_run_duration_is_refused() {
    assert!(matches!(
        RunDuration::from_parts(3600, 500),
        Err(TidefacError::FractionalRunDuration)
    ));
    assert_eq!(RunDuration::from_parts(3600, 0).unwrap().seconds, 3600);
}

#[test]
fn dates_give_ordinal_day_count_and_text() {
    let d = sandy_start();
    assert_eq!(d.ordinal(), 303);
    assert_eq!(d.dday(), 329);
    assert_eq!(d.to_text(), "2012-10-29 00:00:00 UTC");
    let e = UtcDateTime::new(1901, 3, 1, 7, 5, 9).unwrap();
    assert_eq!(e.ordinal(), 60);
    assert_eq!(e.dday(), 59);
    assert_eq!(e.to_text(), "1901-03-01 07:05:09 UTC");
    let f = UtcDateTime::new(2000, 12, 31, 23, 59, 59).unwrap();
    assert_eq!(f.ordinal(), 366);
    assert_eq!(f.dday(), 366 + 24 - 1);
    assert!(UtcDateTime::new(2013, 2, 29, 0, 0, 0).is_none());
    assert!(UtcDateTime::new(2012, 13, 1, 0, 0, 0).is_none());
    assert!(UtcDateTime::new(2012, 1, 1, 24, 0, 0).is_none());
}
