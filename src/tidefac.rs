use crate::constituent::{amplitude_of, frequency_of, name_of, species_of, Constituent};
use crate::date::UtcDateTime;
use vstd::prelude::*;

verus! {

/// A run length in whole seconds.
#[derive(Clone, Copy, Debug, PartialEq, Eq, Structural)]
pub struct RunDuration {
    pub seconds: i64,
}

impl RunDuration {
    /// The run length of `seconds` seconds and `subsec_nanos` nanoseconds;
    /// an error unless it is a whole number of seconds.
    pub fn from_parts(seconds: i64, subsec_nanos: u32) -> (r: Result<RunDuration, TidefacError>)
        ensures
            subsec_nanos == 0 ==> r == Ok::<RunDuration, TidefacError>(RunDuration { seconds }),
            subsec_nanos != 0 ==> r matches Err(TidefacError::FractionalRunDuration),
    {
        if subsec_nanos == 0 {
            Ok(RunDuration { seconds })
        } else {
            Err(TidefacError::FractionalRunDuration)
        }
    }
}

/// The constituent tables of the catalog.
#[derive(Clone, Copy, Debug, PartialEq, Eq, Structural)]
pub enum CatalogTable {
    TidalSpeciesType,
    TidalPotentialAmplitude,
    OrbitalFrequency,
}

/// Why tidal factors cannot be had.
#[derive(Debug)]
pub enum TidefacError {
    /// The name is not that of a known constituent.
    UnhandledConstituent(String),
    /// The table does not hold the constituent.
    MissingConstituent { table: CatalogTable, constituent: String },
    /// The run length is not a whole number of seconds.
    FractionalRunDuration,
}

/// `s` without one leading underscore, if it has one.
pub open spec fn strip_underscore(s: Seq<char>) -> Seq<char> {
    if s.len() > 0 && s[0] == '_' {
        s.skip(1)
    } else {
        s
    }
}

/// `s` without one leading underscore, if it has one.
pub fn strip_underscore_str(s: &str) -> (r: &str)
    ensures
        r@ == strip_underscore(s@),
{
    let n = s.unicode_len();
    if n > 0 && s.get_char(0) == '_' {
        let r = s.substring_char(1, n);
        assert(r@ =~= s@.skip(1));
        r
    } else {
        s
    }
}

/// The tidal factors of one constituent for a run that starts at
/// `start_date` and lasts `run_duration`.
#[derive(Clone, Copy, Debug, PartialEq, Eq, Structural)]
pub struct Tidefac {
    pub start_date: UtcDateTime,
    pub run_duration: RunDuration,
    pub constituent: Constituent,
}

/// The factors of the constituent named `constituent`, a leading underscore
/// left out; an error naming it when no constituent has that name.
pub fn tidefac(start_date: &UtcDateTime, run_duration: &RunDuration, constituent: &str) -> (r: Result<Tidefac, TidefacError>)
    ensures
        match r {
            Ok(t) => t.start_date == *start_date && t.run_duration == *run_duration && name_of(t.constituent)
                == strip_underscore(constituent@),
            Err(TidefacError::UnhandledConstituent(name)) => name@ == strip_underscore(constituent@) && forall|c: Constituent|
                name_of(c) != strip_underscore(constituent@),
            Err(_) => false,
        },
{
    let name = strip_underscore_str(constituent);
    match Constituent::from_name(name) {
        Some(c) => Ok(Tidefac { start_date: *start_date, run_duration: *run_duration, constituent: c }),
        None => Err(TidefacError::UnhandledConstituent(String::from_str(name))),
    }
}

impl Tidefac {
    /// The start of the run.
    pub fn start_date(&self) -> (r: &UtcDateTime)
        ensures
            *r == self.start_date,
    {
        &self.start_date
    }

    /// The length of the run.
    pub fn run_duration(&self) -> (r: &RunDuration)
        ensures
            *r == self.run_duration,
    {
        &self.run_duration
    }

    /// The canonical name of the constituent.
    pub fn constituent(&self) -> (r: &'static str)
        ensures
            r@ == name_of(self.constituent),
    {
        self.constituent.name()
    }

    fn missing(&self, table: CatalogTable) -> (r: TidefacError)
        ensures
            r matches TidefacError::MissingConstituent { table: t, constituent: n } && t == table && n@ == name_of(
                self.constituent,
            ),
    {
        TidefacError::MissingConstituent { table, constituent: String::from_str(self.constituent.name()) }
    }

    /// The tidal species: 0 long-period, 1 diurnal, 2 semidiurnal.
    pub fn tidal_species_type(&self) -> (r: Result<u8, TidefacError>)
        ensures
            match species_of(self.constituent) {
                Some(s) => r == Ok::<u8, TidefacError>(s),
                None => r matches Err(TidefacError::MissingConstituent { table: t, constituent: n })
                    && t == CatalogTable::TidalSpeciesType && n@ == name_of(self.constituent),
            },
    {
        match self.constituent.species() {
            Some(s) => Ok(s),
            None => Err(self.missing(CatalogTable::TidalSpeciesType)),
        }
    }

    /// The equilibrium potential amplitude in micrometres.
    pub fn tidal_potential_amplitude(&self) -> (r: Result<u64, TidefacError>)
        ensures
            match amplitude_of(self.constituent) {
                Some(a) => r == Ok::<u64, TidefacError>(a),
                None => r matches Err(TidefacError::MissingConstituent { table: t, constituent: n })
                    && t == CatalogTable::TidalPotentialAmplitude && n@ == name_of(self.constituent),
            },
    {
        match self.constituent.potential_amplitude() {
            Some(a) => Ok(a),
            None => Err(self.missing(CatalogTable::TidalPotentialAmplitude)),
        }
    }

    /// The orbital frequency in units of 1e-16 rad/s.
    pub fn orbital_frequency(&self) -> (r: u64)
        ensures
            r == frequency_of(self.constituent),
    {
        self.constituent.orbital_frequency()
    }

    /// The day count that the astronomical arguments start from.
    pub fn dday(&self) -> (r: i32)
        requires
            self.start_date.wf(),
        ensures
            r == self.start_date.spec_dday(),
    {
        self.start_date.dday()
    }

    /// Whole years from 1900 to the start of the run.
    pub fn dyr(&self) -> (r: i32)
        requires
            self.start_date.wf(),
        ensures
            r == self.start_date.year - 1900,
    {
        self.start_date.year - 1900
    }

    /// The hour of the day at which the run starts.
    pub fn start_hour(&self) -> (r: u8)
        ensures
            r == self.start_date.hour,
    {
        self.start_date.hour
    }
}

} // verus!
