use crate::constituent::{name_of, Constituent};
use crate::ordered_set::ConstituentSet;
use crate::text::str_eq;
use crate::tidefac::strip_underscore;
use vstd::prelude::*;

verus! {

/// The number of constituent flags of a `ConstituentsConfig`.
pub const FIELD_COUNT: usize = 15;

/// The number of constituents of the major group.
pub const MAJOR_COUNT: usize = 8;

/// The constituent that each flag of a `ConstituentsConfig` stands for, in
/// field order.
pub open spec fn field_order() -> Seq<Constituent> {
    seq![
        Constituent::Q1,
        Constituent::O1,
        Constituent::P1,
        Constituent::K1,
        Constituent::N2,
        Constituent::M2,
        Constituent::S2,
        Constituent::K2,
        Constituent::Mm,
        Constituent::Mf,
        Constituent::M4,
        Constituent::MN4,
        Constituent::MS4,
        Constituent::TwoN2,
        Constituent::S1,
    ]
}

/// The major constituents, which alone drive the tidal potential.
pub open spec fn major_order() -> Seq<Constituent> {
    field_order().take(MAJOR_COUNT as int)
}

/// The minor constituents, forced at open boundaries only.
pub open spec fn minor_order() -> Seq<Constituent> {
    field_order().skip(MAJOR_COUNT as int)
}

/// Whether `c` is one of the major constituents.
pub open spec fn is_major(c: Constituent) -> bool {
    match c {
        Constituent::Q1 => true,
        Constituent::O1 => true,
        Constituent::P1 => true,
        Constituent::K1 => true,
        Constituent::N2 => true,
        Constituent::M2 => true,
        Constituent::S2 => true,
        Constituent::K2 => true,
        _ => false,
    }
}

/// The position of the flag of `c` in field order, or -1 when `c` has none.
pub open spec fn field_index(c: Constituent) -> int {
    match c {
        Constituent::Q1 => 0,
        Constituent::O1 => 1,
        Constituent::P1 => 2,
        Constituent::K1 => 3,
        Constituent::N2 => 4,
        Constituent::M2 => 5,
        Constituent::S2 => 6,
        Constituent::K2 => 7,
        Constituent::Mm => 8,
        Constituent::Mf => 9,
        Constituent::M4 => 10,
        Constituent::MN4 => 11,
        Constituent::MS4 => 12,
        Constituent::TwoN2 => 13,
        Constituent::S1 => 14,
        _ => -1,
    }
}

/// The name of the `i`-th flag. A name that would start with a digit carries
/// a leading underscore.
pub open spec fn field_name_of(i: int) -> Seq<char> {
    if i == 0 {
        "Q1"@
    }
    else if i == 1 {
        "O1"@
    }
    else if i == 2 {
        "P1"@
    }
    else if i == 3 {
        "K1"@
    }
    else if i == 4 {
        "N2"@
    }
    else if i == 5 {
        "M2"@
    }
    else if i == 6 {
        "S2"@
    }
    else if i == 7 {
        "K2"@
    }
    else if i == 8 {
        "Mm"@
    }
    else if i == 9 {
        "Mf"@
    }
    else if i == 10 {
        "M4"@
    }
    else if i == 11 {
        "MN4"@
    }
    else if i == 12 {
        "MS4"@
    }
    else if i == 13 {
        "_2N2"@
    }
    else {
        "S1"@
    }
}

/// Whether `c` is an ASCII decimal digit.
pub open spec fn is_digit(c: char) -> bool {
    '0' <= c && c <= '9'
}

/// The flag name that a requested name refers to: a name that starts with a
/// digit gets a leading underscore.
pub open spec fn adjusted_field_name(s: Seq<char>) -> Seq<char> {
    if s.len() > 0 && is_digit(s[0]) {
        seq!['_'] + s
    } else {
        s
    }
}

/// Whether some flag is named `s`.
pub open spec fn is_field_name(s: Seq<char>) -> bool {
    exists|i: int| 0 <= i < FIELD_COUNT && field_name_of(i) == s
}

/// The constituents of field order whose flag is set among the first `n`
/// flags, in field order; with `major_only`, the major ones alone.
pub open spec fn select(flags: Seq<bool>, n: nat, major_only: bool) -> Seq<Constituent>
    decreases n,
{
    if n == 0 {
        Seq::empty()
    } else {
        let p = select(flags, (n - 1) as nat, major_only);
        let c = field_order()[n - 1];
        if flags[n - 1] && (!major_only || is_major(c)) {
            p.push(c)
        } else {
            p
        }
    }
}

/// Flags that are set for every constituent.
pub open spec fn all_flags() -> Seq<bool> {
    Seq::new(FIELD_COUNT as nat, |i: int| true)
}

/// Flags that are set for the major constituents only.
pub open spec fn major_flags() -> Seq<bool> {
    Seq::new(FIELD_COUNT as nat, |i: int| i < MAJOR_COUNT)
}

/// Flags that are set for the minor constituents only.
pub open spec fn minor_flags() -> Seq<bool> {
    Seq::new(FIELD_COUNT as nat, |i: int| i >= MAJOR_COUNT)
}

/// Flags that are all clear.
pub open spec fn no_flags() -> Seq<bool> {
    Seq::new(FIELD_COUNT as nat, |i: int| false)
}

/// Each flag stands for a distinct constituent.
pub proof fn lemma_field_index()
    ensures
        field_order().len() == FIELD_COUNT,
        forall|i: int| 0 <= i < FIELD_COUNT ==> field_index(#[trigger] field_order()[i]) == i,
        forall|i: int| 0 <= i < FIELD_COUNT ==> (is_major(#[trigger] field_order()[i]) <==> i < MAJOR_COUNT),
        forall|c: Constituent| 0 <= #[trigger] field_index(c) ==> field_order()[field_index(c)] == c,
{
    assert forall|i: int| 0 <= i < FIELD_COUNT implies field_index(#[trigger] field_order()[i]) == i
        && (is_major(field_order()[i]) <==> i < MAJOR_COUNT) by {
        if i == 0 { assert(field_order()[0] == Constituent::Q1); }
        if i == 1 { assert(field_order()[1] == Constituent::O1); }
        if i == 2 { assert(field_order()[2] == Constituent::P1); }
        if i == 3 { assert(field_order()[3] == Constituent::K1); }
        if i == 4 { assert(field_order()[4] == Constituent::N2); }
        if i == 5 { assert(field_order()[5] == Constituent::M2); }
        if i == 6 { assert(field_order()[6] == Constituent::S2); }
        if i == 7 { assert(field_order()[7] == Constituent::K2); }
        if i == 8 { assert(field_order()[8] == Constituent::Mm); }
        if i == 9 { assert(field_order()[9] == Constituent::Mf); }
        if i == 10 { assert(field_order()[10] == Constituent::M4); }
        if i == 11 { assert(field_order()[11] == Constituent::MN4); }
        if i == 12 { assert(field_order()[12] == Constituent::MS4); }
        if i == 13 { assert(field_order()[13] == Constituent::TwoN2); }
        if i == 14 { assert(field_order()[14] == Constituent::S1); }
    }
}

/// Only flagged constituents of the first `n` flags are selected.
proof fn lemma_select_bound(flags: Seq<bool>, n: nat, major_only: bool, c: Constituent)
    requires
        n <= FIELD_COUNT,
    ensures
        select(flags, n, major_only).contains(c) ==> 0 <= field_index(c) < n,
    decreases n,
{
    lemma_field_index();
    if n > 0 {
        lemma_select_bound(flags, (n - 1) as nat, major_only, c);
        let p = select(flags, (n - 1) as nat, major_only);
        if select(flags, n, major_only).contains(c) && !p.contains(c) {
            let k = choose|k: int| 0 <= k < select(flags, n, major_only).len() && select(flags, n, major_only)[k] == c;
            assert(k == p.len());
        }
    }
}

/// The flags of a boundary variable's tidal configuration: one per known
/// constituent, in a fixed field order.
#[allow(non_snake_case)]
#[derive(Clone, Copy, Debug, PartialEq, Eq, Structural)]
pub struct ConstituentsConfig {
    pub Q1: bool,
    pub O1: bool,
    pub P1: bool,
    pub K1: bool,
    pub N2: bool,
    pub M2: bool,
    pub S2: bool,
    pub K2: bool,
    pub Mm: bool,
    pub Mf: bool,
    pub M4: bool,
    pub MN4: bool,
    pub MS4: bool,
    pub _2N2: bool,
    pub S1: bool,
}

/// The error of naming a flag that does not exist.
#[derive(Debug)]
pub enum ConstituentsConfigError {
    /// No flag has the given name.
    UnknownField(String),
}

impl ConstituentsConfig {
    /// The `i`-th flag in field order.
    pub open spec fn flag(&self, i: int) -> bool {
        if i == 0 {
            self.Q1
        } else if i == 1 {
            self.O1
        } else if i == 2 {
            self.P1
        } else if i == 3 {
            self.K1
        } else if i == 4 {
            self.N2
        } else if i == 5 {
            self.M2
        } else if i == 6 {
            self.S2
        } else if i == 7 {
            self.K2
        } else if i == 8 {
            self.Mm
        } else if i == 9 {
            self.Mf
        } else if i == 10 {
            self.M4
        } else if i == 11 {
            self.MN4
        } else if i == 12 {
            self.MS4
        } else if i == 13 {
            self._2N2
        } else {
            self.S1
        }
    }

    /// The flags in field order.
    pub open spec fn flags(&self) -> Seq<bool> {
        Seq::new(FIELD_COUNT as nat, |i: int| self.flag(i))
    }

    /// The names of the flags, in field order.
    pub fn field_names() -> (r: Vec<&'static str>)
        ensures
            r@.len() == FIELD_COUNT,
            forall|i: int| 0 <= i < FIELD_COUNT ==> (#[trigger] r@[i])@ == field_name_of(i),
    {
        let mut r: Vec<&'static str> = Vec::new();
        let mut i: usize = 0;
        while i < FIELD_COUNT
            invariant
                i <= FIELD_COUNT,
                r@.len() == i,
                forall|j: int| 0 <= j < i ==> (#[trigger] r@[j])@ == field_name_of(j),
            decreases FIELD_COUNT - i,
        {
            r.push(Self::field_name(i));
            i = i + 1;
        }
        r
    }

    fn field_name(i: usize) -> (r: &'static str)
        requires
            i < FIELD_COUNT,
        ensures
            r@ == field_name_of(i as int),
    {
        if i == 0 {
            "Q1"
        } else if i == 1 {
            "O1"
        } else if i == 2 {
            "P1"
        } else if i == 3 {
            "K1"
        } else if i == 4 {
            "N2"
        } else if i == 5 {
            "M2"
        } else if i == 6 {
            "S2"
        } else if i == 7 {
            "K2"
        } else if i == 8 {
            "Mm"
        } else if i == 9 {
            "Mf"
        } else if i == 10 {
            "M4"
        } else if i == 11 {
            "MN4"
        } else if i == 12 {
            "MS4"
        } else if i == 13 {
            "_2N2"
        } else {
            "S1"
        }
    }

    fn field_constituent(i: usize) -> (r: Constituent)
        requires
            i < FIELD_COUNT,
        ensures
            r == field_order()[i as int],
    {
        if i == 0 {
            Constituent::Q1
        } else if i == 1 {
            Constituent::O1
        } else if i == 2 {
            Constituent::P1
        } else if i == 3 {
            Constituent::K1
        } else if i == 4 {
            Constituent::N2
        } else if i == 5 {
            Constituent::M2
        } else if i == 6 {
            Constituent::S2
        } else if i == 7 {
            Constituent::K2
        } else if i == 8 {
            Constituent::Mm
        } else if i == 9 {
            Constituent::Mf
        } else if i == 10 {
            Constituent::M4
        } else if i == 11 {
            Constituent::MN4
        } else if i == 12 {
            Constituent::MS4
        } else if i == 13 {
            Constituent::TwoN2
        } else {
            Constituent::S1
        }
    }

    fn constituent_is_major(c: Constituent) -> (r: bool)
        ensures
            r == is_major(c),
    {
        match c {
            Constituent::Q1 => true,
            Constituent::O1 => true,
            Constituent::P1 => true,
            Constituent::K1 => true,
            Constituent::N2 => true,
            Constituent::M2 => true,
            Constituent::S2 => true,
            Constituent::K2 => true,
            _ => false,
        }
    }

    /// The flags in field order.
    pub fn values(&self) -> (r: Vec<bool>)
        ensures
            r@ == self.flags(),
    {
        let r = vec![
            self.Q1,
            self.O1,
            self.P1,
            self.K1,
            self.N2,
            self.M2,
            self.S2,
            self.K2,
            self.Mm,
            self.Mf,
            self.M4,
            self.MN4,
            self.MS4,
            self._2N2,
            self.S1,
        ];
        assert(r@ =~= self.flags());
        r
    }

    #[verifier::rlimit(100)]
    fn with_flag(&self, i: usize, value: bool) -> (r: ConstituentsConfig)
        requires
            i < FIELD_COUNT,
        ensures
            r.flag(i as int) == value,
            forall|j: int| 0 <= j < FIELD_COUNT && j != i ==> self.flag(j) == r.flag(j),
    {
        match i {
            0 => ConstituentsConfig { Q1: value, ..*self },
            1 => ConstituentsConfig { O1: value, ..*self },
            2 => ConstituentsConfig { P1: value, ..*self },
            3 => ConstituentsConfig { K1: value, ..*self },
            4 => ConstituentsConfig { N2: value, ..*self },
            5 => ConstituentsConfig { M2: value, ..*self },
            6 => ConstituentsConfig { S2: value, ..*self },
            7 => ConstituentsConfig { K2: value, ..*self },
            8 => ConstituentsConfig { Mm: value, ..*self },
            9 => ConstituentsConfig { Mf: value, ..*self },
            10 => ConstituentsConfig { M4: value, ..*self },
            11 => ConstituentsConfig { MN4: value, ..*self },
            12 => ConstituentsConfig { MS4: value, ..*self },
            13 => ConstituentsConfig { _2N2: value, ..*self },
            _ => ConstituentsConfig { S1: value, ..*self },
        }
    }

    /// A configuration built from flags given in field order.
    pub open spec fn from_flags(flags: Seq<bool>) -> ConstituentsConfig {
        ConstituentsConfig {
            Q1: flags[0],
            O1: flags[1],
            P1: flags[2],
            K1: flags[3],
            N2: flags[4],
            M2: flags[5],
            S2: flags[6],
            K2: flags[7],
            Mm: flags[8],
            Mf: flags[9],
            M4: flags[10],
            MN4: flags[11],
            MS4: flags[12],
            _2N2: flags[13],
            S1: flags[14],
        }
    }

    fn with_flags(set_major: bool, set_minor: bool) -> (r: ConstituentsConfig)
        ensures
            r.flags() == Seq::new(FIELD_COUNT as nat, |i: int| if i < MAJOR_COUNT { set_major } else { set_minor }),
    {
        let r = ConstituentsConfig {
            Q1: set_major,
            O1: set_major,
            P1: set_major,
            K1: set_major,
            N2: set_major,
            M2: set_major,
            S2: set_major,
            K2: set_major,
            Mm: set_minor,
            Mf: set_minor,
            M4: set_minor,
            MN4: set_minor,
            MS4: set_minor,
            _2N2: set_minor,
            S1: set_minor,
        };
        assert(r.flags() =~= Seq::new(FIELD_COUNT as nat, |i: int| if i < MAJOR_COUNT { set_major } else { set_minor }));
        r
    }

    /// Sets the flag named `field_name` to `value`. A name that starts with a
    /// digit refers to the flag whose name is that name behind an underscore.
    pub fn set_by_name(&mut self, field_name: &str, value: bool) -> (r: Result<(), ConstituentsConfigError>)
        ensures
            r is Ok <==> is_field_name(adjusted_field_name(field_name@)),
            forall|i: int|
                0 <= i < FIELD_COUNT && field_name_of(i) == adjusted_field_name(field_name@)
                    ==> final(self).flags() == old(self).flags().update(i, value),
            match r {
                Ok(()) => true,
                Err(ConstituentsConfigError::UnknownField(name)) => name@ == field_name@ && *final(self) == *old(self),
            },
    {
        let starts_with_digit = field_name.unicode_len() > 0 && {
            let c = field_name.get_char(0);
            '0' <= c && c <= '9'
        };
        let adjusted = if starts_with_digit {
            proof {
                reveal_strlit("_");
            }
            let mut s = String::from_str("_");
            s.append(field_name);
            assert(s@ =~= adjusted_field_name(field_name@));
            s
        } else {
            String::from_str(field_name)
        };
        let mut i: usize = 0;
        while i < FIELD_COUNT
            invariant
                i <= FIELD_COUNT,
                adjusted@ == adjusted_field_name(field_name@),
                *self == *old(self),
                forall|j: int| 0 <= j < i ==> field_name_of(j) != adjusted@,
            decreases FIELD_COUNT - i,
        {
            if str_eq(Self::field_name(i), adjusted.as_str()) {
                let ghost before = *self;
                *self = self.with_flag(i, value);
                proof {
                    lemma_flag_update(before, *self, i as int, value);
                }
                proof {
                    lemma_field_names_distinct();
                }
                return Ok(());
            }
            i = i + 1;
        }
        Err(ConstituentsConfigError::UnknownField(String::from_str(field_name)))
    }

    /// Every flag set.
    pub fn all() -> (r: ConstituentsConfig)
        ensures
            r.flags() == all_flags(),
    {
        let r = Self::with_flags(true, true);
        assert(r.flags() =~= all_flags());
        r
    }

    /// The flags of the major constituents set, all others clear.
    pub fn major() -> (r: ConstituentsConfig)
        ensures
            r.flags() == major_flags(),
    {
        let r = Self::with_flags(true, false);
        assert(r.flags() =~= major_flags());
        r
    }

    /// The flags of the minor constituents set, all others clear.
    pub fn minor() -> (r: ConstituentsConfig)
        ensures
            r.flags() == minor_flags(),
    {
        let r = Self::with_flags(false, true);
        assert(r.flags() =~= minor_flags());
        r
    }

    fn active(&self, major_only: bool) -> (r: ConstituentSet)
        ensures
            r@ == select(self.flags(), FIELD_COUNT as nat, major_only),
    {
        let values = self.values();
        let mut set = ConstituentSet::new();
        let mut i: usize = 0;
        while i < FIELD_COUNT
            invariant
                i <= FIELD_COUNT,
                values@ == self.flags(),
                set@ == select(self.flags(), i as nat, major_only),
            decreases FIELD_COUNT - i,
        {
            let c = Self::field_constituent(i);
            if values[i] && (!major_only || Self::constituent_is_major(c)) {
                proof {
                    lemma_field_index();
                    lemma_select_bound(self.flags(), i as nat, major_only, c);
                }
                set.insert_if_absent(c);
            }
            i = i + 1;
        }
        set
    }

    /// The flagged constituents that belong to the major group, in field
    /// order: those that drive the tidal potential.
    pub fn get_active_potential_constituents(&self) -> (r: ConstituentSet)
        ensures
            r@ == select(self.flags(), FIELD_COUNT as nat, true),
    {
        self.active(true)
    }

    /// Every flagged constituent, in field order: those forced at the
    /// boundary.
    pub fn get_active_forcing_constituents(&self) -> (r: ConstituentSet)
        ensures
            r@ == select(self.flags(), FIELD_COUNT as nat, false),
    {
        self.active(false)
    }
}

impl Default for ConstituentsConfig {
    /// Every flag clear.
    fn default() -> (r: ConstituentsConfig)
        ensures
            r.flags() == no_flags(),
    {
        let r = ConstituentsConfig::with_flags(false, false);
        assert(r.flags() =~= no_flags());
        r
    }
}

/// Changing one field of a configuration changes one flag.
proof fn lemma_flag_update(a: ConstituentsConfig, b: ConstituentsConfig, i: int, value: bool)
    requires
        0 <= i < FIELD_COUNT,
        b.flag(i) == value,
        forall|j: int| 0 <= j < FIELD_COUNT && j != i ==> a.flag(j) == b.flag(j),
    ensures
        b.flags() == a.flags().update(i, value),
{
    assert(b.flags() =~= a.flags().update(i, value));
}

/// No flag name starts with a digit, so each names itself.
pub proof fn lemma_field_name_not_digit(i: int)
    requires
        0 <= i < FIELD_COUNT,
    ensures
        adjusted_field_name(field_name_of(i)) == field_name_of(i),
        is_field_name(field_name_of(i)),
{
    reveal_strlit("Q1");
    reveal_strlit("O1");
    reveal_strlit("P1");
    reveal_strlit("K1");
    reveal_strlit("N2");
    reveal_strlit("M2");
    reveal_strlit("S2");
    reveal_strlit("K2");
    reveal_strlit("Mm");
    reveal_strlit("Mf");
    reveal_strlit("M4");
    reveal_strlit("MN4");
    reveal_strlit("MS4");
    reveal_strlit("_2N2");
    reveal_strlit("S1");
}

/// Every flag's constituent is written under the flag's name with a leading
/// underscore left out.
pub proof fn lemma_field_names_are_display_names(i: int)
    requires
        0 <= i < FIELD_COUNT,
    ensures
        name_of(field_order()[i]) == strip_underscore(field_name_of(i)),
{
    reveal_strlit("2N2");
    reveal_strlit("K1");
    reveal_strlit("K2");
    reveal_strlit("M2");
    reveal_strlit("M4");
    reveal_strlit("MN4");
    reveal_strlit("MS4");
    reveal_strlit("Mf");
    reveal_strlit("Mm");
    reveal_strlit("N2");
    reveal_strlit("O1");
    reveal_strlit("P1");
    reveal_strlit("Q1");
    reveal_strlit("S1");
    reveal_strlit("S2");
    reveal_strlit("_2N2");
    if i == 13 {
        assert("_2N2"@.skip(1) =~= "2N2"@);
    }
}

/// Distinct flags have distinct names.
pub proof fn lemma_field_names_distinct()
    ensures
        forall|i: int, j: int|
            0 <= i < FIELD_COUNT && 0 <= j < FIELD_COUNT && i != j ==> field_name_of(i) != field_name_of(j),
{
    reveal_strlit("Q1");
    reveal_strlit("O1");
    reveal_strlit("P1");
    reveal_strlit("K1");
    reveal_strlit("N2");
    reveal_strlit("M2");
    reveal_strlit("S2");
    reveal_strlit("K2");
    reveal_strlit("Mm");
    reveal_strlit("Mf");
    reveal_strlit("M4");
    reveal_strlit("MN4");
    reveal_strlit("MS4");
    reveal_strlit("_2N2");
    reveal_strlit("S1");
    assert forall|i: int, j: int|
        0 <= i < FIELD_COUNT && 0 <= j < FIELD_COUNT && i != j implies field_name_of(i) != field_name_of(j) by {
        if field_name_of(i) == field_name_of(j) {
            assert(field_name_of(i).len() == field_name_of(j).len());
            assert(field_name_of(i)[0] == field_name_of(j)[0]);
            assert(field_name_of(i)[1] == field_name_of(j)[1]);
        }
    }
}

/// With every flag set, the forcing constituents are exactly the major and
/// the minor constituents together, each once: as many as both groups hold.
pub proof fn lemma_all_forcing_is_major_and_minor(cfg: ConstituentsConfig)
    requires
        cfg.flags() == all_flags(),
    ensures
        select(cfg.flags(), FIELD_COUNT as nat, false).no_duplicates(),
        select(cfg.flags(), FIELD_COUNT as nat, false).len() == major_order().len() + minor_order().len(),
        forall|c: Constituent|
            select(cfg.flags(), FIELD_COUNT as nat, false).contains(c) <==> (major_order().contains(c)
                || minor_order().contains(c)),
{
    lemma_field_index();
    lemma_select_all(FIELD_COUNT as nat);
    let s = select(all_flags(), FIELD_COUNT as nat, false);
    assert(s =~= field_order());
    assert forall|c: Constituent| s.contains(c) <==> (major_order().contains(c) || minor_order().contains(c)) by {
        if s.contains(c) {
            let k = choose|k: int| 0 <= k < s.len() && s[k] == c;
            if k < MAJOR_COUNT {
                assert(major_order()[k] == c);
            } else {
                assert(minor_order()[k - MAJOR_COUNT] == c);
            }
        }
        if major_order().contains(c) {
            let k = choose|k: int| 0 <= k < major_order().len() && major_order()[k] == c;
            assert(s[k] == c);
        }
        if minor_order().contains(c) {
            let k = choose|k: int| 0 <= k < minor_order().len() && minor_order()[k] == c;
            assert(s[k + MAJOR_COUNT] == c);
        }
    }
    assert forall|i: int, j: int| 0 <= i < s.len() && 0 <= j < s.len() && i != j implies s[i] != s[j] by {
        assert(field_index(s[i]) == i);
        assert(field_index(s[j]) == j);
    }
}

proof fn lemma_select_all(n: nat)
    requires
        n <= FIELD_COUNT,
    ensures
        select(all_flags(), n, false) == field_order().take(n as int),
    decreases n,
{
    lemma_field_index();
    if n > 0 {
        lemma_select_all((n - 1) as nat);
        assert(field_order().take(n as int) =~= field_order().take(n - 1).push(field_order()[n - 1]));
    }
}

/// With the major flags alone set, the potential constituents and the forcing
/// constituents coincide.
pub proof fn lemma_major_potential_is_forcing(cfg: ConstituentsConfig)
    requires
        cfg.flags() == major_flags(),
    ensures
        select(cfg.flags(), FIELD_COUNT as nat, true) == select(cfg.flags(), FIELD_COUNT as nat, false),
{
    lemma_select_major(FIELD_COUNT as nat);
}

proof fn lemma_select_major(n: nat)
    requires
        n <= FIELD_COUNT,
    ensures
        select(major_flags(), n, true) == select(major_flags(), n, false),
    decreases n,
{
    lemma_field_index();
    if n > 0 {
        lemma_select_major((n - 1) as nat);
    }
}

/// Which database supplies tidal amplitudes and phases along a boundary.
#[derive(Clone, Copy, Debug, PartialEq, Eq, Structural)]
pub enum TidalDatabase {
    TPXO,
    HAMTIDE,
    FES,
}

/// Which database supplies space- and time-varying boundary values.
#[derive(Clone, Copy, Debug, PartialEq, Eq, Structural)]
pub enum TimeSeriesDatabase {
    HYCOM,
}

/// The tidal forcing of one boundary variable: which constituents, from which
/// database.
#[derive(Clone, Copy, Debug, PartialEq, Eq, Structural)]
pub struct TidesConfig {
    pub constituents: ConstituentsConfig,
    pub database: TidalDatabase,
}

/// Space- and time-varying forcing of one boundary variable.
#[derive(Clone, Copy, Debug, PartialEq, Eq, Structural)]
pub struct SpaceVaryingTimeSeriesConfig {
    pub database: TimeSeriesDatabase,
}

} // verus!
