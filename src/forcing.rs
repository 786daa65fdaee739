use crate::bctypes::{Bctype, ElevationConfig, SalinityConfig, TemperatureConfig, VelocityConfig};
use crate::constituent::Constituent;
use crate::ordered_set::{
    insert_all, lemma_insert_all_contains, lemma_insert_all_no_duplicates, lemma_insert_all_prefix,
    ConstituentSet,
};
use crate::text::{decimal, push_decimal, push_signed_decimal, signed_decimal};
use crate::tides::{select, ConstituentsConfig, FIELD_COUNT};
use std::collections::BTreeMap;
use vstd::prelude::*;

verus! {

broadcast use vstd::std_specs::btree::group_btree_axioms, vstd::laws_cmp::group_laws_cmp;

/// The type code of an optional configuration: 0 when there is none.
pub open spec fn code_of<T: Bctype>(c: Option<T>) -> i8 {
    match c {
        Some(c) => c.spec_ibtype(),
        None => 0,
    }
}

/// The constituents that an optional tidal configuration contributes, in
/// field order.
pub open spec fn contribution(c: Option<ConstituentsConfig>, major_only: bool) -> Seq<Constituent> {
    match c {
        Some(c) => select(c.flags(), FIELD_COUNT as nat, major_only),
        None => Seq::empty(),
    }
}

/// The entry of an optional map for a segment.
pub open spec fn entry_of<T>(m: Option<BTreeMap<u32, T>>, seg: u32) -> Option<T> {
    match m {
        Some(m) => if m@.contains_key(seg) {
            Some(m@[seg])
        } else {
            None
        },
        None => None,
    }
}

/// The line that introduces one open boundary segment: its node count, then
/// the type code of each variable, separated by single spaces.
pub open spec fn bctypes_line(node_count: nat, codes: Seq<i8>) -> Seq<char>
    decreases codes.len(),
{
    if codes.len() == 0 {
        decimal(node_count)
    } else {
        bctypes_line(node_count, codes.drop_last()) + seq![' '] + signed_decimal(codes.last() as int)
    }
}

/// The forcing of every open boundary segment of a mesh, per variable: each
/// map takes a 0-based segment index to that segment's configuration.
pub struct BoundaryForcingConfig {
    /// The node identifiers of each open boundary segment, in the mesh's order.
    pub open_boundaries: Vec<Vec<u32>>,
    pub elevation: Option<BTreeMap<u32, ElevationConfig>>,
    pub velocity: Option<BTreeMap<u32, VelocityConfig>>,
    pub temperature: Option<BTreeMap<u32, TemperatureConfig>>,
    pub salinity: Option<BTreeMap<u32, SalinityConfig>>,
}

impl BoundaryForcingConfig {
    /// Every segment has an index that a map can hold.
    pub open spec fn wf(&self) -> bool {
        self.open_boundaries@.len() <= u32::MAX as nat + 1
    }

    /// The number of open boundary segments.
    pub open spec fn segment_count(&self) -> nat {
        self.open_boundaries@.len()
    }

    /// The type codes of segment `seg`, for elevation, velocity, temperature
    /// and salinity in that order; 0 where the variable has no configuration.
    pub open spec fn codes_at(&self, seg: u32) -> Seq<i8> {
        seq![
            code_of(entry_of(self.elevation, seg)),
            code_of(entry_of(self.velocity, seg)),
            code_of(entry_of(self.temperature, seg)),
            code_of(entry_of(self.salinity, seg)),
        ]
    }

    /// The constituents forced on the first `n` segments, each once, in the
    /// order first met: segment by segment, elevation before velocity, field
    /// order within one configuration. With `major_only`, the major ones
    /// alone.
    pub open spec fn active_upto(&self, n: nat, major_only: bool) -> Seq<Constituent>
        decreases n,
    {
        if n == 0 {
            Seq::empty()
        } else {
            let seg = (n - 1) as u32;
            let p = self.active_upto((n - 1) as nat, major_only);
            let e = match entry_of(self.elevation, seg) {
                Some(c) => c.spec_tides(),
                None => None,
            };
            let v = match entry_of(self.velocity, seg) {
                Some(c) => c.spec_tides(),
                None => None,
            };
            insert_all(insert_all(p, contribution(e, major_only)), contribution(v, major_only))
        }
    }

    fn lookup<T>(m: &Option<BTreeMap<u32, T>>, seg: u32) -> (r: Option<&T>)
        ensures
            match r {
                Some(c) => entry_of(*m, seg) == Some(*c),
                None => entry_of(*m, seg) is None,
            },
    {
        match m {
            Some(m) => m.get(&seg),
            None => None,
        }
    }

    fn code<T: Bctype>(c: Option<&T>) -> (r: i8)
        ensures
            r == match c {
                Some(c) => c.spec_ibtype(),
                None => 0,
            },
    {
        match c {
            Some(c) => c.ibtype(),
            None => 0,
        }
    }

    /// The type codes of segment `seg`: elevation, velocity, temperature,
    /// salinity.
    pub fn bctypes(&self, seg: u32) -> (r: Vec<i8>)
        ensures
            r@ == self.codes_at(seg),
    {
        let mut r: Vec<i8> = Vec::new();
        r.push(Self::code(Self::lookup(&self.elevation, seg)));
        r.push(Self::code(Self::lookup(&self.velocity, seg)));
        r.push(Self::code(Self::lookup(&self.temperature, seg)));
        r.push(Self::code(Self::lookup(&self.salinity, seg)));
        assert(r@ =~= self.codes_at(seg));
        r
    }

    fn elevation_tides(&self, seg: u32) -> (r: Option<ConstituentsConfig>)
        ensures
            r == match entry_of(self.elevation, seg) {
                Some(c) => c.spec_tides(),
                None => None,
            },
    {
        match Self::lookup(&self.elevation, seg) {
            Some(c) => c.tides(),
            None => None,
        }
    }

    fn velocity_tides(&self, seg: u32) -> (r: Option<ConstituentsConfig>)
        ensures
            r == match entry_of(self.velocity, seg) {
                Some(c) => c.spec_tides(),
                None => None,
            },
    {
        match Self::lookup(&self.velocity, seg) {
            Some(c) => c.tides(),
            None => None,
        }
    }

    fn add_contribution(set: &mut ConstituentSet, c: Option<ConstituentsConfig>, major_only: bool)
        ensures
            final(set)@ == insert_all(old(set)@, contribution(c, major_only)),
    {
        match c {
            Some(c) => {
                let s = if major_only {
                    c.get_active_potential_constituents()
                } else {
                    c.get_active_forcing_constituents()
                };
                set.extend(&s);
            },
            None => {
                assert(contribution(c, major_only) =~= Seq::<Constituent>::empty());
            },
        }
    }

    fn active(&self, major_only: bool) -> (r: ConstituentSet)
        requires
            self.wf(),
        ensures
            r@ == self.active_upto(self.segment_count(), major_only),
    {
        let mut set = ConstituentSet::new();
        let n = self.open_boundaries.len();
        let mut i: usize = 0;
        while i < n
            invariant
                n == self.segment_count(),
                self.wf(),
                i <= n,
                set@ == self.active_upto(i as nat, major_only),
            decreases n - i,
        {
            let seg = i as u32;
            let e = self.elevation_tides(seg);
            Self::add_contribution(&mut set, e, major_only);
            let v = self.velocity_tides(seg);
            Self::add_contribution(&mut set, v, major_only);
            i = i + 1;
        }
        set
    }

    /// The major constituents that any segment's tidal elevation or velocity
    /// forcing enables, each once, in the order first met.
    pub fn get_active_potential_constituents_set(&self) -> (r: ConstituentSet)
        requires
            self.wf(),
        ensures
            r@ == self.active_upto(self.segment_count(), true),
    {
        self.active(true)
    }

    /// Every constituent that any segment's tidal elevation or velocity
    /// forcing enables, each once, in the order first met.
    pub fn get_active_forcing_constituents_set(&self) -> (r: ConstituentSet)
        requires
            self.wf(),
        ensures
            r@ == self.active_upto(self.segment_count(), false),
    {
        self.active(false)
    }
}

/// The line that introduces a segment with `this_nodes` nodes and the given
/// type codes.
pub fn get_bctypes_line(this_nodes: &Vec<u32>, bctypes_vec: Vec<i8>) -> (r: String)
    ensures
        r@ == bctypes_line(this_nodes@.len(), bctypes_vec@),
{
    let mut s = String::new();
    push_decimal(&mut s, this_nodes.len() as u64);
    assert(s@ =~= bctypes_line(this_nodes@.len(), bctypes_vec@.take(0)));
    let mut i: usize = 0;
    while i < bctypes_vec.len()
        invariant
            i <= bctypes_vec@.len(),
            s@ == bctypes_line(this_nodes@.len(), bctypes_vec@.take(i as int)),
        decreases bctypes_vec.len() - i,
    {
        proof {
            reveal_strlit(" ");
        }
        s.append(" ");
        push_signed_decimal(&mut s, bctypes_vec[i] as i64);
        assert(bctypes_vec@.take(i as int + 1).drop_last() =~= bctypes_vec@.take(i as int));
        assert(" "@ =~= seq![' ']);
        i = i + 1;
    }
    assert(bctypes_vec@.take(bctypes_vec@.len() as int) =~= bctypes_vec@);
    s
}

/// Constituents keep the place where they were first met: the constituents of
/// the first `m` segments stand, in the same order, at the front of those of
/// the first `n` segments; none stands twice; and a constituent is held
/// exactly when some segment's elevation or velocity forcing enables it.
pub proof fn lemma_active_first_seen_order(cfg: BoundaryForcingConfig, m: nat, n: nat, major_only: bool)
    requires
        m <= n,
    ensures
        cfg.active_upto(n, major_only).len() >= cfg.active_upto(m, major_only).len(),
        cfg.active_upto(n, major_only).take(cfg.active_upto(m, major_only).len() as int) == cfg.active_upto(
            m,
            major_only,
        ),
        cfg.active_upto(n, major_only).no_duplicates(),
        forall|c: Constituent|
            cfg.active_upto(n, major_only).contains(c) <==> exists|k: nat|
                k < n && #[trigger] segment_contribution(cfg, k, major_only).contains(c),
    decreases n,
{
    if n > 0 {
        let k = (n - 1) as nat;
        if m < n {
            lemma_active_first_seen_order(cfg, m, k, major_only);
        }
        lemma_active_first_seen_order(cfg, k, k, major_only);
        let p = cfg.active_upto(k, major_only);
        let seg = k as u32;
        let e = match entry_of(cfg.elevation, seg) {
            Some(c) => c.spec_tides(),
            None => None,
        };
        let v = match entry_of(cfg.velocity, seg) {
            Some(c) => c.spec_tides(),
            None => None,
        };
        let pe = insert_all(p, contribution(e, major_only));
        lemma_insert_all_prefix(p, contribution(e, major_only));
        lemma_insert_all_prefix(pe, contribution(v, major_only));
        lemma_insert_all_no_duplicates(p, contribution(e, major_only));
        lemma_insert_all_no_duplicates(pe, contribution(v, major_only));
        let q = cfg.active_upto(n, major_only);
        if m < n {
            let pm = cfg.active_upto(m, major_only);
            assert(q.take(pe.len() as int).take(p.len() as int) =~= q.take(p.len() as int));
            assert(q.take(p.len() as int).take(pm.len() as int) =~= q.take(pm.len() as int));
        }
        assert forall|c: Constituent|
            q.contains(c) <==> exists|j: nat| j < n && #[trigger] segment_contribution(cfg, j, major_only).contains(c) by {
            lemma_insert_all_contains(p, contribution(e, major_only), c);
            lemma_insert_all_contains(pe, contribution(v, major_only), c);
            lemma_insert_all_contains(contribution(e, major_only), contribution(v, major_only), c);
            lemma_insert_all_contains(Seq::empty(), contribution(e, major_only), c);
            if q.contains(c) && !p.contains(c) {
                assert(segment_contribution(cfg, k, major_only).contains(c));
            }
            if exists|j: nat| j < n && #[trigger] segment_contribution(cfg, j, major_only).contains(c) {
                let j = choose|j: nat| j < n && #[trigger] segment_contribution(cfg, j, major_only).contains(c);
                if j < k {
                    assert(p.contains(c));
                }
            }
        }
    }
}

/// The constituents that segment `k` contributes: those of its elevation
/// forcing, then those of its velocity forcing, each once.
pub open spec fn segment_contribution(cfg: BoundaryForcingConfig, k: nat, major_only: bool) -> Seq<Constituent> {
    let seg = k as u32;
    let e = match entry_of(cfg.elevation, seg) {
        Some(c) => c.spec_tides(),
        None => None,
    };
    let v = match entry_of(cfg.velocity, seg) {
        Some(c) => c.spec_tides(),
        None => None,
    };
    insert_all(contribution(e, major_only), contribution(v, major_only))
}

/// A tidal elevation gives the segment's first code 3; a segment without
/// elevation forcing gets 0 there.
pub proof fn lemma_elevation_codes(cfg: BoundaryForcingConfig, seg: u32)
    ensures
        entry_of(cfg.elevation, seg) matches Some(ElevationConfig::Tides(_)) ==> cfg.codes_at(seg)[0] == 3,
        entry_of(cfg.elevation, seg) is None ==> cfg.codes_at(seg)[0] == 0,
{
}

/// Collects the parts of a `BoundaryForcingConfig`.
pub struct BoundaryForcingConfigBuilder {
    pub open_boundaries: Option<Vec<Vec<u32>>>,
    pub elevation: Option<BTreeMap<u32, ElevationConfig>>,
    pub velocity: Option<BTreeMap<u32, VelocityConfig>>,
    pub temperature: Option<BTreeMap<u32, TemperatureConfig>>,
    pub salinity: Option<BTreeMap<u32, SalinityConfig>>,
}

/// Why a `BoundaryForcingConfig` cannot be built.
#[derive(Debug)]
pub enum BoundaryForcingConfigBuilderError {
    /// The named field was never set.
    UninitializedFieldError(String),
    /// The mesh has more open boundary segments than a `u32` index can name.
    TooManyOpenBoundaries,
}

impl Default for BoundaryForcingConfigBuilder {
    /// Nothing set.
    fn default() -> (r: BoundaryForcingConfigBuilder)
        ensures
            r.open_boundaries is None,
            r.elevation is None,
            r.velocity is None,
            r.temperature is None,
            r.salinity is None,
    {
        BoundaryForcingConfigBuilder {
            open_boundaries: None,
            elevation: None,
            velocity: None,
            temperature: None,
            salinity: None,
        }
    }
}

impl BoundaryForcingConfigBuilder {
    /// The configuration, once the mesh's open boundary segments are set.
    pub fn build(self) -> (r: Result<BoundaryForcingConfig, BoundaryForcingConfigBuilderError>)
        ensures
            match self.open_boundaries {
                None => r matches Err(BoundaryForcingConfigBuilderError::UninitializedFieldError(n)) && n@
                    == "hgrid"@,
                Some(b) => if b@.len() <= u32::MAX as nat + 1 {
                    r matches Ok(c) && c.wf() && c == (BoundaryForcingConfig {
                        open_boundaries: b,
                        elevation: self.elevation,
                        velocity: self.velocity,
                        temperature: self.temperature,
                        salinity: self.salinity,
                    })
                } else {
                    r matches Err(BoundaryForcingConfigBuilderError::TooManyOpenBoundaries)
                },
            },
    {
        match self.open_boundaries {
            None => Err(BoundaryForcingConfigBuilderError::UninitializedFieldError(String::from_str("hgrid"))),
            Some(b) => {
                if b.len() as u64 > 0x1_0000_0000u64 {
                    Err(BoundaryForcingConfigBuilderError::TooManyOpenBoundaries)
                } else {
                    Ok(
                        BoundaryForcingConfig {
                            open_boundaries: b,
                            elevation: self.elevation,
                            velocity: self.velocity,
                            temperature: self.temperature,
                            salinity: self.salinity,
                        },
                    )
                }
            },
        }
    }

    /// Sets the open boundary segments of the mesh: the node identifiers of
    /// each, in the mesh's order.
    pub fn hgrid(self, open_boundaries: Vec<Vec<u32>>) -> (r: Self)
        ensures
            r == (BoundaryForcingConfigBuilder { open_boundaries: Some(open_boundaries), ..self }),
    {
        BoundaryForcingConfigBuilder { open_boundaries: Some(open_boundaries), ..self }
    }

    /// Sets the elevation forcing, by segment index.
    pub fn elevation(self, elevation: BTreeMap<u32, ElevationConfig>) -> (r: Self)
        ensures
            r == (BoundaryForcingConfigBuilder { elevation: Some(elevation), ..self }),
    {
        BoundaryForcingConfigBuilder { elevation: Some(elevation), ..self }
    }

    /// Sets the velocity forcing, by segment index.
    pub fn velocity(self, velocity: BTreeMap<u32, VelocityConfig>) -> (r: Self)
        ensures
            r == (BoundaryForcingConfigBuilder { velocity: Some(velocity), ..self }),
    {
        BoundaryForcingConfigBuilder { velocity: Some(velocity), ..self }
    }

    /// Sets the temperature forcing, by segment index.
    pub fn temperature(self, temperature: BTreeMap<u32, TemperatureConfig>) -> (r: Self)
        ensures
            r == (BoundaryForcingConfigBuilder { temperature: Some(temperature), ..self }),
    {
        BoundaryForcingConfigBuilder { temperature: Some(temperature), ..self }
    }

    /// Sets the salinity forcing, by segment index.
    pub fn salinity(self, salinity: BTreeMap<u32, SalinityConfig>) -> (r: Self)
        ensures
            r == (BoundaryForcingConfigBuilder { salinity: Some(salinity), ..self }),
    {
        BoundaryForcingConfigBuilder { salinity: Some(salinity), ..self }
    }
}

} // verus!
