use crate::text::str_eq;
use crate::tides::{
    all_flags, major_flags, minor_flags, ConstituentsConfig, TidalDatabase, TimeSeriesDatabase, FIELD_COUNT,
};
use vstd::prelude::*;

verus! {

/// The forcing types that an elevation option can name.
#[derive(Clone, Copy, Debug, PartialEq, Eq, Structural)]
pub enum ElevationConfigType {
    UniformTimeSeries,
    ConstantValue,
    Tides,
    SpaceVaryingTimeSeries,
    TidesAndSpaceVaryingTimeSeries,
    EqualToZero,
}

/// The forcing types that a velocity option can name.
#[derive(Clone, Copy, Debug, PartialEq, Eq, Structural)]
pub enum VelocityConfigType {
    UniformTimeSeries,
    ConstantValue,
    Tides,
    SpaceVaryingTimeSeries,
    TidesAndSpaceVaryingTimeSeries,
    Flather,
}

/// The forcing types that a temperature or salinity option can name.
#[derive(Clone, Copy, Debug, PartialEq, Eq, Structural)]
pub enum TracerConfigType {
    RelaxToUniformTimeSeries,
    RelaxToConstantValue,
    RelaxToInitialConditions,
    RelaxToSpaceVaryingTimeSeries,
}

/// The elevation type that an option value names.
pub open spec fn elevation_type_of(v: Seq<char>) -> Option<ElevationConfigType> {
    if v == "1"@ {
        Some(ElevationConfigType::UniformTimeSeries)
    } else if v == "2"@ {
        Some(ElevationConfigType::ConstantValue)
    } else if v == "3"@ {
        Some(ElevationConfigType::Tides)
    } else if v == "4"@ {
        Some(ElevationConfigType::SpaceVaryingTimeSeries)
    } else if v == "5"@ {
        Some(ElevationConfigType::TidesAndSpaceVaryingTimeSeries)
    } else if v == "-1"@ {
        Some(ElevationConfigType::EqualToZero)
    } else {
        None
    }
}

/// The velocity type that an option value names.
pub open spec fn velocity_type_of(v: Seq<char>) -> Option<VelocityConfigType> {
    if v == "1"@ {
        Some(VelocityConfigType::UniformTimeSeries)
    } else if v == "2"@ {
        Some(VelocityConfigType::ConstantValue)
    } else if v == "3"@ {
        Some(VelocityConfigType::Tides)
    } else if v == "4"@ {
        Some(VelocityConfigType::SpaceVaryingTimeSeries)
    } else if v == "5"@ {
        Some(VelocityConfigType::TidesAndSpaceVaryingTimeSeries)
    } else if v == "-1"@ {
        Some(VelocityConfigType::Flather)
    } else {
        None
    }
}

/// The temperature or salinity type that an option value names.
pub open spec fn tracer_type_of(v: Seq<char>) -> Option<TracerConfigType> {
    if v == "1"@ {
        Some(TracerConfigType::RelaxToUniformTimeSeries)
    } else if v == "2"@ {
        Some(TracerConfigType::RelaxToConstantValue)
    } else if v == "3"@ {
        Some(TracerConfigType::RelaxToInitialConditions)
    } else if v == "4"@ {
        Some(TracerConfigType::RelaxToSpaceVaryingTimeSeries)
    } else {
        None
    }
}

/// The tidal database that an option value names.
pub open spec fn tidal_database_of(v: Seq<char>) -> Option<TidalDatabase> {
    if v == "tpxo"@ {
        Some(TidalDatabase::TPXO)
    } else if v == "fes"@ {
        Some(TidalDatabase::FES)
    } else if v == "hamtide"@ {
        Some(TidalDatabase::HAMTIDE)
    } else {
        None
    }
}

/// The elevation type that an option value names.
pub fn elevation_config_type(value: &str) -> (r: Option<ElevationConfigType>)
    ensures
        r == elevation_type_of(value@),
{
    if str_eq(value, "1") {
        Some(ElevationConfigType::UniformTimeSeries)
    } else if str_eq(value, "2") {
        Some(ElevationConfigType::ConstantValue)
    } else if str_eq(value, "3") {
        Some(ElevationConfigType::Tides)
    } else if str_eq(value, "4") {
        Some(ElevationConfigType::SpaceVaryingTimeSeries)
    } else if str_eq(value, "5") {
        Some(ElevationConfigType::TidesAndSpaceVaryingTimeSeries)
    } else if str_eq(value, "-1") {
        Some(ElevationConfigType::EqualToZero)
    } else {
        None
    }
}

/// The velocity type that an option value names.
pub fn velocity_config_type(value: &str) -> (r: Option<VelocityConfigType>)
    ensures
        r == velocity_type_of(value@),
{
    if str_eq(value, "1") {
        Some(VelocityConfigType::UniformTimeSeries)
    } else if str_eq(value, "2") {
        Some(VelocityConfigType::ConstantValue)
    } else if str_eq(value, "3") {
        Some(VelocityConfigType::Tides)
    } else if str_eq(value, "4") {
        Some(VelocityConfigType::SpaceVaryingTimeSeries)
    } else if str_eq(value, "5") {
        Some(VelocityConfigType::TidesAndSpaceVaryingTimeSeries)
    } else if str_eq(value, "-1") {
        Some(VelocityConfigType::Flather)
    } else {
        None
    }
}

/// The temperature or salinity type that an option value names.
pub fn tracer_config_type(value: &str) -> (r: Option<TracerConfigType>)
    ensures
        r == tracer_type_of(value@),
{
    if str_eq(value, "1") {
        Some(TracerConfigType::RelaxToUniformTimeSeries)
    } else if str_eq(value, "2") {
        Some(TracerConfigType::RelaxToConstantValue)
    } else if str_eq(value, "3") {
        Some(TracerConfigType::RelaxToInitialConditions)
    } else if str_eq(value, "4") {
        Some(TracerConfigType::RelaxToSpaceVaryingTimeSeries)
    } else {
        None
    }
}

/// The tidal database that an option value names.
pub fn tidal_database(value: &str) -> (r: Option<TidalDatabase>)
    ensures
        r == tidal_database_of(value@),
{
    if str_eq(value, "tpxo") {
        Some(TidalDatabase::TPXO)
    } else if str_eq(value, "fes") {
        Some(TidalDatabase::FES)
    } else if str_eq(value, "hamtide") {
        Some(TidalDatabase::HAMTIDE)
    } else {
        None
    }
}

/// The baroclinic database that an option value names.
pub fn time_series_database(value: &str) -> (r: Option<TimeSeriesDatabase>)
    ensures
        r == (if value@ == "hycom"@ { Some(TimeSeriesDatabase::HYCOM) } else { None }),
{
    if str_eq(value, "hycom") {
        Some(TimeSeriesDatabase::HYCOM)
    } else {
        None
    }
}

/// Whether a forcing type value asks for a tidal database: types 3 and 5.
pub fn tidal_db_required(value: &str) -> (r: bool)
    ensures
        r == (value@ == "3"@ || value@ == "5"@),
{
    str_eq(value, "3") || str_eq(value, "5")
}

/// Whether a forcing type value asks for a baroclinic database: types 4 and 5.
pub fn baroclinic_db_required(value: &str) -> (r: bool)
    ensures
        r == (value@ == "4"@ || value@ == "5"@),
{
    str_eq(value, "4") || str_eq(value, "5")
}

/// Whether an elevation type value asks for a time-history file: type 1.
pub fn elev_th_required(value: &str) -> (r: bool)
    ensures
        r == (value@ == "1"@),
{
    str_eq(value, "1")
}

/// The constituents that a boundary's options select: every one, the major
/// ones or the minor ones when the matching switch alone is on; when none is
/// on, those whose own switch is on, given in field order. More than one
/// switch on selects nothing.
pub fn constituents_from_switches(all: bool, major: bool, minor: bool, each: &Vec<bool>) -> (r: Option<
    ConstituentsConfig,
>)
    requires
        each@.len() == FIELD_COUNT,
    ensures
        (all && !major && !minor) ==> (r matches Some(c) && c.flags() == all_flags()),
        (!all && major && !minor) ==> (r matches Some(c) && c.flags() == major_flags()),
        (!all && !major && minor) ==> (r matches Some(c) && c.flags() == minor_flags()),
        (!all && !major && !minor) ==> (r matches Some(c) && c.flags() == each@),
        ((all && major) || (all && minor) || (major && minor)) ==> r is None,
{
    if all && !major && !minor {
        Some(ConstituentsConfig::all())
    } else if !all && major && !minor {
        Some(ConstituentsConfig::major())
    } else if !all && !major && minor {
        Some(ConstituentsConfig::minor())
    } else if !all && !major && !minor {
        let mut c = ConstituentsConfig::default();
        let names = ConstituentsConfig::field_names();
        let mut i: usize = 0;
        while i < FIELD_COUNT
            invariant
                i <= FIELD_COUNT,
                each@.len() == FIELD_COUNT,
                names@.len() == FIELD_COUNT,
                forall|j: int| 0 <= j < FIELD_COUNT ==> (#[trigger] names@[j])@ == crate::tides::field_name_of(j),
                forall|j: int| 0 <= j < i ==> c.flags()[j] == each@[j],
                forall|j: int| i <= j < FIELD_COUNT ==> c.flags()[j] == false,
            decreases FIELD_COUNT - i,
        {
            if each[i] {
                let _ = c.set_by_name(names[i], true);
                proof {
                    crate::tides::lemma_field_name_not_digit(i as int);
                    crate::tides::lemma_field_names_distinct();
                }
            }
            i = i + 1;
        }
        assert(c.flags() =~= each@);
        Some(c)
    } else {
        None
    }
}

/// Whether every character of `s` is an ASCII decimal digit.
pub open spec fn all_digits(s: Seq<char>) -> bool {
    forall|i: int| 0 <= i < s.len() ==> '0' <= #[trigger] s[i] && s[i] <= '9'
}

/// The number that the decimal digits `s` write.
pub open spec fn digits_value(s: Seq<char>) -> nat
    decreases s.len(),
{
    if s.len() == 0 {
        0
    } else {
        digits_value(s.drop_last()) * 10 + ((s.last() as u32) - ('0' as u32)) as nat
    }
}

/// The 0-based segment index that a per-boundary option id names: the id is
/// the variable name, a dash and the 1-based identifier in decimal digits.
pub open spec fn boundary_key_of(key: Seq<char>, variable: Seq<char>) -> Option<u32> {
    let n = variable.len();
    let digits = key.skip(n + 1 as int);
    if key.len() > n + 1 && key.take(n as int) == variable && key[n as int] == '-' && all_digits(digits)
        && 1 <= digits_value(digits) <= u32::MAX as nat + 1 {
        Some((digits_value(digits) - 1) as u32)
    } else {
        None
    }
}

proof fn lemma_digits_value_grows(s: Seq<char>, i: int, j: int)
    requires
        0 <= i <= j <= s.len(),
        all_digits(s),
    ensures
        digits_value(s.take(i)) <= digits_value(s.take(j)),
    decreases j - i,
{
    if i < j {
        lemma_digits_value_grows(s, i, j - 1);
        assert(s.take(j).drop_last() =~= s.take(j - 1));
        assert('0' <= s[j - 1] && s[j - 1] <= '9');
    }
}

/// The 0-based segment index that the option id `key` names for `variable`,
/// if it is a per-boundary option of that variable.
pub fn boundary_key(key: &str, variable: &str) -> (r: Option<u32>)
    ensures
        r == boundary_key_of(key@, variable@),
{
    let n = variable.unicode_len();
    let len = key.unicode_len();
    if len <= n || len - n < 2 {
        return None;
    }
    let head = key.substring_char(0, n);
    if !str_eq(head, variable) || key.get_char(n) != '-' {
        proof {
            if head@ != variable@ {
                assert(key@.take(n as int) =~= head@);
            }
        }
        return None;
    }
    assert(key@.take(n as int) =~= head@);
    let ghost digits = key@.skip(n + 1 as int);
    let mut value: u64 = 0;
    let mut i: usize = n + 1;
    while i < len
        invariant
            n < len,
            n == variable@.len(),
            len == key@.len(),
            key@.take(n as int) == variable@,
            key@[n as int] == '-',
            n + 1 <= i <= len,
            digits == key@.skip(n + 1 as int),
            all_digits(digits.take(i - n - 1)),
            value == digits_value(digits.take(i - n - 1)),
            value <= 0x1_0000_0000,
        decreases len - i,
    {
        let c = key.get_char(i);
        assert(digits[i - n - 1] == c);
        if c < '0' || c > '9' {
            proof {
                if all_digits(digits) {
                    assert('0' <= digits[i - n - 1] && digits[i - n - 1] <= '9');
                }
            }
            return None;
        }
        let d = (c as u32 - '0' as u32) as u64;
        assert(digits.take(i - n).drop_last() =~= digits.take(i - n - 1));
        let next = value * 10 + d;
        assert(digits.take(i - n).last() == c);
        assert(next == digits_value(digits.take(i - n)));
        if next > 0x1_0000_0000 {
            proof {
                assert(all_digits(digits.take(i - n)));
                assert forall|k: int| 0 <= k < i - n implies '0' <= #[trigger] digits[k] && digits[k] <= '9' by {
                    assert(digits.take(i - n)[k] == digits[k]);
                }
            }
            let mut j: usize = i + 1;
            while j < len
                invariant
                    n + 1 <= i < j <= len,
                    n == variable@.len(),
                    len == key@.len(),
                    digits == key@.skip(n + 1 as int),
                    all_digits(digits.take(j - n - 1)),
                    digits_value(digits.take(i - n)) > 0x1_0000_0000,
                decreases len - j,
            {
                let e = key.get_char(j);
                assert(digits[j - n - 1] == e);
                if e < '0' || e > '9' {
                    proof {
                        if all_digits(digits) {
                            assert('0' <= digits[j - n - 1] && digits[j - n - 1] <= '9');
                        }
                    }
                    return None;
                }
                proof {
                    assert forall|k: int| 0 <= k < j - n implies '0' <= #[trigger] digits.take(j - n)[k] && digits.take(j - n)[k] <= '9' by {
                        if k < j - n - 1 {
                            assert(digits.take(j - n - 1)[k] == digits[k]);
                        }
                    }
                }
                j = j + 1;
            }
            proof {
                assert(digits.take(digits.len() as int) =~= digits);
                assert(all_digits(digits));
                lemma_digits_value_grows(digits, i - n, digits.len() as int);
            }
            return None;
        }
        value = next;
        proof {
            assert forall|k: int| 0 <= k < i - n implies '0' <= #[trigger] digits.take(i - n)[k] && digits.take(i - n)[k] <= '9' by {
                if k < i - n - 1 {
                    assert(digits.take(i - n - 1)[k] == digits[k]);
                }
            }
        }
        i = i + 1;
    }
    assert(digits.take(digits.len() as int) =~= digits);
    if value == 0 {
        return None;
    }
    Some((value - 1) as u32)
}

} // verus!
