use crate::text::str_eq;
use vstd::prelude::*;

verus! {

/// A harmonic tidal constituent known to the catalog.
///
/// The enumeration is closed: every constituent has an orbital frequency, a
/// nodal-factor formula and an equilibrium-argument formula.
#[derive(Clone, Copy, Debug, PartialEq, Eq, Structural, Hash)]
pub enum Constituent {
    M4,
    M6,
    MK3,
    S4,
    MN4,
    S6,
    M3,
    TwoMK3,
    M8,
    MS4,
    M2,
    S2,
    N2,
    Nu2,
    MU2,
    TwoN2,
    Lambda2,
    T2,
    R2,
    TwoSM2,
    L2,
    K2,
    K1,
    O1,
    OO1,
    S1,
    M1,
    J1,
    RHO,
    Q1,
    TwoQ1,
    P1,
    Mm,
    Ssa,
    Sa,
    Msf,
    Mf,
    Z0,
}

/// The canonical name of a constituent, as written in the output file.
pub open spec fn name_of(c: Constituent) -> Seq<char> {
    match c {
        Constituent::M4 => "M4"@,
        Constituent::M6 => "M6"@,
        Constituent::MK3 => "MK3"@,
        Constituent::S4 => "S4"@,
        Constituent::MN4 => "MN4"@,
        Constituent::S6 => "S6"@,
        Constituent::M3 => "M3"@,
        Constituent::TwoMK3 => "2MK3"@,
        Constituent::M8 => "M8"@,
        Constituent::MS4 => "MS4"@,
        Constituent::M2 => "M2"@,
        Constituent::S2 => "S2"@,
        Constituent::N2 => "N2"@,
        Constituent::Nu2 => "Nu2"@,
        Constituent::MU2 => "MU2"@,
        Constituent::TwoN2 => "2N2"@,
        Constituent::Lambda2 => "lambda2"@,
        Constituent::T2 => "T2"@,
        Constituent::R2 => "R2"@,
        Constituent::TwoSM2 => "2SM2"@,
        Constituent::L2 => "L2"@,
        Constituent::K2 => "K2"@,
        Constituent::K1 => "K1"@,
        Constituent::O1 => "O1"@,
        Constituent::OO1 => "OO1"@,
        Constituent::S1 => "S1"@,
        Constituent::M1 => "M1"@,
        Constituent::J1 => "J1"@,
        Constituent::RHO => "RHO"@,
        Constituent::Q1 => "Q1"@,
        Constituent::TwoQ1 => "2Q1"@,
        Constituent::P1 => "P1"@,
        Constituent::Mm => "Mm"@,
        Constituent::Ssa => "Ssa"@,
        Constituent::Sa => "Sa"@,
        Constituent::Msf => "Msf"@,
        Constituent::Mf => "Mf"@,
        Constituent::Z0 => "Z0"@,
    }
}

/// Every constituent once, in the order of the orbital-frequency table.
pub open spec fn catalog_order() -> Seq<Constituent> {
    seq![
        Constituent::M4,
        Constituent::M6,
        Constituent::MK3,
        Constituent::S4,
        Constituent::MN4,
        Constituent::S6,
        Constituent::M3,
        Constituent::TwoMK3,
        Constituent::M8,
        Constituent::MS4,
        Constituent::M2,
        Constituent::S2,
        Constituent::N2,
        Constituent::Nu2,
        Constituent::MU2,
        Constituent::TwoN2,
        Constituent::Lambda2,
        Constituent::T2,
        Constituent::R2,
        Constituent::TwoSM2,
        Constituent::L2,
        Constituent::K2,
        Constituent::K1,
        Constituent::O1,
        Constituent::OO1,
        Constituent::S1,
        Constituent::M1,
        Constituent::J1,
        Constituent::RHO,
        Constituent::Q1,
        Constituent::TwoQ1,
        Constituent::P1,
        Constituent::Mm,
        Constituent::Ssa,
        Constituent::Sa,
        Constituent::Msf,
        Constituent::Mf,
        Constituent::Z0,
    ]
}

/// Tidal species (0 long-period, 1 diurnal, 2 semidiurnal), defined for the
/// constituents of the species table only.
pub open spec fn species_of(c: Constituent) -> Option<u8> {
    match c {
        Constituent::M2 => Some(2u8),
        Constituent::S2 => Some(2u8),
        Constituent::N2 => Some(2u8),
        Constituent::K2 => Some(2u8),
        Constituent::K1 => Some(1u8),
        Constituent::O1 => Some(1u8),
        Constituent::Q1 => Some(1u8),
        Constituent::P1 => Some(1u8),
        Constituent::Z0 => Some(0u8),
        _ => None,
    }
}

/// Equilibrium potential amplitude in micrometres, defined for the
/// constituents of the amplitude table only.
pub open spec fn amplitude_of(c: Constituent) -> Option<u64> {
    match c {
        Constituent::M2 => Some(242334u64),
        Constituent::S2 => Some(112841u64),
        Constituent::N2 => Some(46398u64),
        Constituent::K2 => Some(30704u64),
        Constituent::K1 => Some(141565u64),
        Constituent::O1 => Some(100514u64),
        Constituent::Q1 => Some(19256u64),
        Constituent::P1 => Some(46843u64),
        Constituent::Z0 => Some(0u64),
        _ => None,
    }
}

/// Orbital frequency in units of 1e-16 rad/s.
pub open spec fn frequency_of(c: Constituent) -> u64 {
    match c {
        Constituent::M4 => 2810378050173u64,
        Constituent::M6 => 4215567080107u64,
        Constituent::MK3 => 2134400613513u64,
        Constituent::S4 => 2908882086657u64,
        Constituent::MN4 => 2783986019952u64,
        Constituent::S6 => 4363323129986u64,
        Constituent::M3 => 2107783537630u64,
        Constituent::TwoMK3 => 2081166466594u64,
        Constituent::M8 => 5620756090649u64,
        Constituent::MS4 => 2859630068415u64,
        Constituent::M2 => 1405189025086u64,
        Constituent::S2 => 1454441043329u64,
        Constituent::N2 => 1378796994865u64,
        Constituent::Nu2 => 1382329037065u64,
        Constituent::MU2 => 1355937006844u64,
        Constituent::TwoN2 => 1352404964644u64,
        Constituent::Lambda2 => 1428049013108u64,
        Constituent::T2 => 1452450073529u64,
        Constituent::R2 => 1456432013128u64,
        Constituent::TwoSM2 => 1503693061571u64,
        Constituent::L2 => 1431581055307u64,
        Constituent::K2 => 1458423172006u64,
        Constituent::K1 => 729211583579u64,
        Constituent::O1 => 675977441508u64,
        Constituent::OO1 => 782445730498u64,
        Constituent::S1 => 727220521664u64,
        Constituent::M1 => 702594512543u64,
        Constituent::J1 => 755603613800u64,
        Constituent::RHO => 653117453487u64,
        Constituent::Q1 => 649585411287u64,
        Constituent::TwoQ1 => 623193381066u64,
        Constituent::P1 => 725229459750u64,
        Constituent::Mm => 26392030221u64,
        Constituent::Ssa => 3982128677u64,
        Constituent::Sa => 1991061914u64,
        Constituent::Msf => 49252018242u64,
        Constituent::Mf => 53234146919u64,
        Constituent::Z0 => 0u64,
    }
}

/// Position of a constituent in `catalog_order`.
pub open spec fn catalog_index(c: Constituent) -> int {
    match c {
        Constituent::M4 => 0,
        Constituent::M6 => 1,
        Constituent::MK3 => 2,
        Constituent::S4 => 3,
        Constituent::MN4 => 4,
        Constituent::S6 => 5,
        Constituent::M3 => 6,
        Constituent::TwoMK3 => 7,
        Constituent::M8 => 8,
        Constituent::MS4 => 9,
        Constituent::M2 => 10,
        Constituent::S2 => 11,
        Constituent::N2 => 12,
        Constituent::Nu2 => 13,
        Constituent::MU2 => 14,
        Constituent::TwoN2 => 15,
        Constituent::Lambda2 => 16,
        Constituent::T2 => 17,
        Constituent::R2 => 18,
        Constituent::TwoSM2 => 19,
        Constituent::L2 => 20,
        Constituent::K2 => 21,
        Constituent::K1 => 22,
        Constituent::O1 => 23,
        Constituent::OO1 => 24,
        Constituent::S1 => 25,
        Constituent::M1 => 26,
        Constituent::J1 => 27,
        Constituent::RHO => 28,
        Constituent::Q1 => 29,
        Constituent::TwoQ1 => 30,
        Constituent::P1 => 31,
        Constituent::Mm => 32,
        Constituent::Ssa => 33,
        Constituent::Sa => 34,
        Constituent::Msf => 35,
        Constituent::Mf => 36,
        Constituent::Z0 => 37,
    }
}

/// Every constituent stands in the catalog, at its own index.
pub proof fn lemma_catalog_index(c: Constituent)
    ensures
        0 <= catalog_index(c) < catalog_order().len(),
        catalog_order()[catalog_index(c)] == c,
{
}

impl Constituent {
    /// The canonical name of this constituent.
    pub fn name(&self) -> (r: &'static str)
        ensures
            r@ == name_of(*self),
    {
        match self {
            Constituent::M4 => "M4",
            Constituent::M6 => "M6",
            Constituent::MK3 => "MK3",
            Constituent::S4 => "S4",
            Constituent::MN4 => "MN4",
            Constituent::S6 => "S6",
            Constituent::M3 => "M3",
            Constituent::TwoMK3 => "2MK3",
            Constituent::M8 => "M8",
            Constituent::MS4 => "MS4",
            Constituent::M2 => "M2",
            Constituent::S2 => "S2",
            Constituent::N2 => "N2",
            Constituent::Nu2 => "Nu2",
            Constituent::MU2 => "MU2",
            Constituent::TwoN2 => "2N2",
            Constituent::Lambda2 => "lambda2",
            Constituent::T2 => "T2",
            Constituent::R2 => "R2",
            Constituent::TwoSM2 => "2SM2",
            Constituent::L2 => "L2",
            Constituent::K2 => "K2",
            Constituent::K1 => "K1",
            Constituent::O1 => "O1",
            Constituent::OO1 => "OO1",
            Constituent::S1 => "S1",
            Constituent::M1 => "M1",
            Constituent::J1 => "J1",
            Constituent::RHO => "RHO",
            Constituent::Q1 => "Q1",
            Constituent::TwoQ1 => "2Q1",
            Constituent::P1 => "P1",
            Constituent::Mm => "Mm",
            Constituent::Ssa => "Ssa",
            Constituent::Sa => "Sa",
            Constituent::Msf => "Msf",
            Constituent::Mf => "Mf",
            Constituent::Z0 => "Z0",
        }
    }

    /// The tidal species, if the species table holds this constituent.
    pub fn species(&self) -> (r: Option<u8>)
        ensures
            r == species_of(*self),
    {
        match self {
            Constituent::M2 => Some(2),
            Constituent::S2 => Some(2),
            Constituent::N2 => Some(2),
            Constituent::K2 => Some(2),
            Constituent::K1 => Some(1),
            Constituent::O1 => Some(1),
            Constituent::Q1 => Some(1),
            Constituent::P1 => Some(1),
            Constituent::Z0 => Some(0),
            _ => None,
        }
    }

    /// The potential amplitude in micrometres, if the amplitude table holds
    /// this constituent.
    pub fn potential_amplitude(&self) -> (r: Option<u64>)
        ensures
            r == amplitude_of(*self),
    {
        match self {
            Constituent::M2 => Some(242334),
            Constituent::S2 => Some(112841),
            Constituent::N2 => Some(46398),
            Constituent::K2 => Some(30704),
            Constituent::K1 => Some(141565),
            Constituent::O1 => Some(100514),
            Constituent::Q1 => Some(19256),
            Constituent::P1 => Some(46843),
            Constituent::Z0 => Some(0),
            _ => None,
        }
    }

    /// The orbital frequency in units of 1e-16 rad/s.
    pub fn orbital_frequency(&self) -> (r: u64)
        ensures
            r == frequency_of(*self),
    {
        match self {
            Constituent::M4 => 2810378050173,
            Constituent::M6 => 4215567080107,
            Constituent::MK3 => 2134400613513,
            Constituent::S4 => 2908882086657,
            Constituent::MN4 => 2783986019952,
            Constituent::S6 => 4363323129986,
            Constituent::M3 => 2107783537630,
            Constituent::TwoMK3 => 2081166466594,
            Constituent::M8 => 5620756090649,
            Constituent::MS4 => 2859630068415,
            Constituent::M2 => 1405189025086,
            Constituent::S2 => 1454441043329,
            Constituent::N2 => 1378796994865,
            Constituent::Nu2 => 1382329037065,
            Constituent::MU2 => 1355937006844,
            Constituent::TwoN2 => 1352404964644,
            Constituent::Lambda2 => 1428049013108,
            Constituent::T2 => 1452450073529,
            Constituent::R2 => 1456432013128,
            Constituent::TwoSM2 => 1503693061571,
            Constituent::L2 => 1431581055307,
            Constituent::K2 => 1458423172006,
            Constituent::K1 => 729211583579,
            Constituent::O1 => 675977441508,
            Constituent::OO1 => 782445730498,
            Constituent::S1 => 727220521664,
            Constituent::M1 => 702594512543,
            Constituent::J1 => 755603613800,
            Constituent::RHO => 653117453487,
            Constituent::Q1 => 649585411287,
            Constituent::TwoQ1 => 623193381066,
            Constituent::P1 => 725229459750,
            Constituent::Mm => 26392030221,
            Constituent::Ssa => 3982128677,
            Constituent::Sa => 1991061914,
            Constituent::Msf => 49252018242,
            Constituent::Mf => 53234146919,
            Constituent::Z0 => 0,
        }
    }
}

/// Every constituent once, in the order of the orbital-frequency table.
pub fn catalog() -> (r: Vec<Constituent>)
    ensures
        r@ == catalog_order(),
{
    let r = vec![
        Constituent::M4,
        Constituent::M6,
        Constituent::MK3,
        Constituent::S4,
        Constituent::MN4,
        Constituent::S6,
        Constituent::M3,
        Constituent::TwoMK3,
        Constituent::M8,
        Constituent::MS4,
        Constituent::M2,
        Constituent::S2,
        Constituent::N2,
        Constituent::Nu2,
        Constituent::MU2,
        Constituent::TwoN2,
        Constituent::Lambda2,
        Constituent::T2,
        Constituent::R2,
        Constituent::TwoSM2,
        Constituent::L2,
        Constituent::K2,
        Constituent::K1,
        Constituent::O1,
        Constituent::OO1,
        Constituent::S1,
        Constituent::M1,
        Constituent::J1,
        Constituent::RHO,
        Constituent::Q1,
        Constituent::TwoQ1,
        Constituent::P1,
        Constituent::Mm,
        Constituent::Ssa,
        Constituent::Sa,
        Constituent::Msf,
        Constituent::Mf,
        Constituent::Z0,
    ];
    r
}

impl Constituent {
    /// The constituent whose canonical name is `name`, if there is one.
    pub fn from_name(name: &str) -> (r: Option<Constituent>)
        ensures
            match r {
                Some(c) => name_of(c) == name@,
                None => forall|c: Constituent| name_of(c) != name@,
            },
    {
        let all = catalog();
        let mut i: usize = 0;
        while i < all.len()
            invariant
                all@ == catalog_order(),
                i <= all@.len(),
                forall|j: int| 0 <= j < i ==> name_of(#[trigger] catalog_order()[j]) != name@,
            decreases all.len() - i,
        {
            let c = all[i];
            if str_eq(c.name(), name) {
                return Some(c);
            }
            i = i + 1;
        }
        proof {
            assert forall|c: Constituent| name_of(c) != name@ by {
                lemma_catalog_index(c);
            }
        }
        None
    }
}

} // verus!
