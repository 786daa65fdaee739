use crate::bctypes::FloatBits;
use crate::constituent::{name_of, Constituent};
use crate::date::UtcDateTime;
use crate::forcing::{bctypes_line, get_bctypes_line, BoundaryForcingConfig};
use crate::ordered_set::ConstituentSet;
use crate::text::{decimal, push_decimal};
use crate::tidefac::RunDuration;
use vstd::prelude::*;

verus! {

/// Whether the binary64 value with bit pattern `bits` compares below zero:
/// sign bit set, not a zero and not a NaN.
pub open spec fn is_below_zero(bits: u64) -> bool {
    bits >= 0x8000_0000_0000_0000u64 && bits > 0x8000_0000_0000_0000u64 && bits - 0x8000_0000_0000_0000u64
        <= 0x7FF0_0000_0000_0000u64
}

/// The characters of each string, in order.
pub open spec fn texts(v: Seq<String>) -> Seq<Seq<char>> {
    v.map_values(|s: String| s@)
}

/// One block per potential constituent: its name on a line, then its row.
pub open spec fn potential_blocks(names: Seq<Constituent>, rows: Seq<Seq<char>>) -> Seq<char>
    decreases names.len(),
{
    if names.len() == 0 {
        Seq::empty()
    } else {
        potential_blocks(names.drop_last(), rows) + name_of(names.last()) + seq!['\n'] + rows[names.len()
            - 1] + seq!['\n']
    }
}

/// One block per forcing constituent: its name on a line, then its row
/// behind one space.
pub open spec fn forcing_blocks(names: Seq<Constituent>, rows: Seq<Seq<char>>) -> Seq<char>
    decreases names.len(),
{
    if names.len() == 0 {
        Seq::empty()
    } else {
        forcing_blocks(names.drop_last(), rows) + name_of(names.last()) + seq!['\n', ' '] + rows[names.len()
            - 1] + seq!['\n']
    }
}

/// The first `n` segment lines of a forcing configuration.
pub open spec fn segment_lines(cfg: BoundaryForcingConfig, n: nat) -> Seq<char>
    decreases n,
{
    if n == 0 {
        Seq::empty()
    } else {
        segment_lines(cfg, (n - 1) as nat) + bctypes_line(
            cfg.open_boundaries@[n - 1]@.len(),
            cfg.codes_at((n - 1) as u32),
        ) + seq!['\n']
    }
}

/// The boundary forcing of one run, ready to be written out.
pub struct Bctides {
    pub start_date: UtcDateTime,
    pub run_duration: RunDuration,
    /// The depth below which the tidal potential is applied, as a binary64.
    pub tidal_potential_cutoff_depth: FloatBits,
    pub boundary_forcing_config: BoundaryForcingConfig,
}

/// Why a `Bctides` cannot be built.
#[derive(Debug)]
pub enum BctidesBuilderError {
    /// The named field was never set.
    UninitializedFieldError(String),
    /// The cut-off depth is below zero.
    InvalidTidalPotentialCutoffDepth,
}

impl Bctides {
    /// Whether the parts can be written out.
    pub open spec fn wf(&self) -> bool {
        self.start_date.wf() && self.boundary_forcing_config.wf()
    }

    /// The potential constituents, in the order they are written.
    pub open spec fn spec_potential(&self) -> Seq<Constituent> {
        self.boundary_forcing_config.active_upto(self.boundary_forcing_config.segment_count(), true)
    }

    /// The forcing constituents, in the order they are written.
    pub open spec fn spec_forcing(&self) -> Seq<Constituent> {
        self.boundary_forcing_config.active_upto(self.boundary_forcing_config.segment_count(), false)
    }

    /// The whole file, given the text of the cut-off depth and of each
    /// constituent's numeric row.
    pub open spec fn spec_render(
        &self,
        cutoff_depth: Seq<char>,
        potential_rows: Seq<Seq<char>>,
        forcing_rows: Seq<Seq<char>>,
    ) -> Seq<char> {
        let cfg = self.boundary_forcing_config;
        self.start_date.spec_text() + seq!['\n'] + decimal(self.spec_potential().len()) + seq![' ']
            + cutoff_depth + " !# number of tidal potential and cut-off depth\n"@
            + potential_blocks(self.spec_potential(), potential_rows) + decimal(self.spec_forcing().len())
            + " !# of boundary tidal frequencies\n"@ + forcing_blocks(self.spec_forcing(), forcing_rows)
            + decimal(cfg.segment_count()) + " !# number of open bnd segs\n"@ + segment_lines(
            cfg,
            cfg.segment_count(),
        )
    }

    /// The major constituents that drive the tidal potential, each once, in
    /// the order first met.
    pub fn get_active_potential_constituents_set(&self) -> (r: ConstituentSet)
        requires
            self.wf(),
        ensures
            r@ == self.spec_potential(),
    {
        self.boundary_forcing_config.get_active_potential_constituents_set()
    }

    /// The constituents forced at the boundaries, each once, in the order
    /// first met.
    pub fn get_active_forcing_constituents_set(&self) -> (r: ConstituentSet)
        requires
            self.wf(),
        ensures
            r@ == self.spec_forcing(),
    {
        self.boundary_forcing_config.get_active_forcing_constituents_set()
    }

    /// The type codes of segment `this_bnd_key`.
    pub fn get_bctypes_vec(&self, this_bnd_key: u32) -> (r: Vec<i8>)
        ensures
            r@ == self.boundary_forcing_config.codes_at(this_bnd_key),
    {
        self.boundary_forcing_config.bctypes(this_bnd_key)
    }

    /// The file text. `cutoff_depth` is the text of the cut-off depth;
    /// `potential_rows[i]` is the numeric row of the `i`-th potential
    /// constituent (species, amplitude, frequency, nodal factor, equilibrium
    /// argument) and `forcing_rows[i]` that of the `i`-th forcing constituent
    /// (frequency, nodal factor, equilibrium argument).
    pub fn render(&self, cutoff_depth: &str, potential_rows: &Vec<String>, forcing_rows: &Vec<String>) -> (r: String)
        requires
            self.wf(),
            potential_rows@.len() == self.spec_potential().len(),
            forcing_rows@.len() == self.spec_forcing().len(),
        ensures
            r@ == self.spec_render(cutoff_depth@, texts(potential_rows@), texts(forcing_rows@)),
    {
        proof {
            reveal_strlit("\n");
            reveal_strlit(" ");
        }
        let mut s = self.start_date.to_text();
        s.append("\n");
        let apc = self.get_active_potential_constituents_set();
        push_decimal(&mut s, apc.len() as u64);
        s.append(" ");
        s.append(cutoff_depth);
        s.append(" !# number of tidal potential and cut-off depth\n");
        assert("\n"@ =~= seq!['\n']);
        assert(" "@ =~= seq![' ']);
        let ghost head = s@;
        let mut i: usize = 0;
        while i < apc.len()
            invariant
                apc@ == self.spec_potential(),
                potential_rows@.len() == apc@.len(),
                i <= apc@.len(),
                s@ == head + potential_blocks(apc@.take(i as int), texts(potential_rows@)),
            decreases apc@.len() - i,
        {
            proof {
                reveal_strlit("\n");
            }
            let c = apc.get(i);
            s.append(c.name());
            s.append("\n");
            s.append(potential_rows[i].as_str());
            s.append("\n");
            assert("\n"@ =~= seq!['\n']);
            assert(apc@.take(i as int + 1).drop_last() =~= apc@.take(i as int));
            assert(texts(potential_rows@)[i as int] == potential_rows@[i as int]@);
            i = i + 1;
        }
        assert(apc@.take(apc@.len() as int) =~= apc@);
        let afc = self.get_active_forcing_constituents_set();
        push_decimal(&mut s, afc.len() as u64);
        s.append(" !# of boundary tidal frequencies\n");
        let ghost head2 = s@;
        let mut j: usize = 0;
        while j < afc.len()
            invariant
                afc@ == self.spec_forcing(),
                forcing_rows@.len() == afc@.len(),
                j <= afc@.len(),
                s@ == head2 + forcing_blocks(afc@.take(j as int), texts(forcing_rows@)),
            decreases afc@.len() - j,
        {
            proof {
                reveal_strlit("\n ");
                reveal_strlit("\n");
            }
            let c = afc.get(j);
            s.append(c.name());
            s.append("\n ");
            s.append(forcing_rows[j].as_str());
            s.append("\n");
            assert("\n"@ =~= seq!['\n']);
            assert("\n "@ =~= seq!['\n', ' ']);
            assert(afc@.take(j as int + 1).drop_last() =~= afc@.take(j as int));
            assert(texts(forcing_rows@)[j as int] == forcing_rows@[j as int]@);
            j = j + 1;
        }
        assert(afc@.take(afc@.len() as int) =~= afc@);
        let cfg = &self.boundary_forcing_config;
        let n = cfg.open_boundaries.len();
        push_decimal(&mut s, n as u64);
        s.append(" !# number of open bnd segs\n");
        let ghost head3 = s@;
        let mut k: usize = 0;
        while k < n
            invariant
                n == cfg.segment_count(),
                *cfg == self.boundary_forcing_config,
                cfg.wf(),
                k <= n,
                s@ == head3 + segment_lines(*cfg, k as nat),
            decreases n - k,
        {
            proof {
                reveal_strlit("\n");
            }
            let codes = self.get_bctypes_vec(k as u32);
            let nodes = &cfg.open_boundaries[k];
            let line = get_bctypes_line(nodes, codes);
            let ghost before = s@;
            s.append(line.as_str());
            s.append("\n");
            assert("\n"@ =~= seq!['\n']);
            assert(s@ == before + line@ + seq!['\n']);
            assert(segment_lines(*cfg, (k + 1) as nat) == segment_lines(*cfg, k as nat) + line@ + seq!['\n']);
            k = k + 1;
        }
        s
    }
}

/// Collects the parts of a `Bctides`.
pub struct BctidesBuilder {
    pub start_date: Option<UtcDateTime>,
    pub run_duration: Option<RunDuration>,
    pub tidal_potential_cutoff_depth: Option<FloatBits>,
    pub boundary_forcing_config: Option<BoundaryForcingConfig>,
}

impl Default for BctidesBuilder {
    /// Nothing set.
    fn default() -> (r: BctidesBuilder)
        ensures
            r.start_date is None,
            r.run_duration is None,
            r.tidal_potential_cutoff_depth is None,
            r.boundary_forcing_config is None,
    {
        BctidesBuilder {
            start_date: None,
            run_duration: None,
            tidal_potential_cutoff_depth: None,
            boundary_forcing_config: None,
        }
    }
}

impl BctidesBuilder {
    /// The forcing, once every part is set and the cut-off depth is not
    /// below zero. Unset parts are reported in field order.
    pub fn build(self) -> (r: Result<Bctides, BctidesBuilderError>)
        ensures
            self.start_date is None ==> (r matches Err(BctidesBuilderError::UninitializedFieldError(n)) && n@
                == "start_date"@),
            self.start_date is Some && self.run_duration is None ==> (r matches Err(
                BctidesBuilderError::UninitializedFieldError(n),
            ) && n@ == "run_duration"@),
            self.start_date is Some && self.run_duration is Some && self.tidal_potential_cutoff_depth is None
                ==> (r matches Err(BctidesBuilderError::UninitializedFieldError(n)) && n@
                == "tidal_potential_cutoff_depth"@),
            self.start_date is Some && self.run_duration is Some && self.tidal_potential_cutoff_depth is Some
                && self.boundary_forcing_config is None ==> (r matches Err(
                BctidesBuilderError::UninitializedFieldError(n),
            ) && n@ == "boundary_forcing_config"@),
            match (self.start_date, self.run_duration, self.tidal_potential_cutoff_depth, self.boundary_forcing_config) {
                (Some(d), Some(t), Some(z), Some(c)) => if is_below_zero(z.bits) {
                    r matches Err(BctidesBuilderError::InvalidTidalPotentialCutoffDepth)
                } else {
                    r matches Ok(b) && b == (Bctides {
                        start_date: d,
                        run_duration: t,
                        tidal_potential_cutoff_depth: z,
                        boundary_forcing_config: c,
                    })
                },
                _ => true,
            },
    {
        let start_date = match self.start_date {
            Some(d) => d,
            None => {
                return Err(BctidesBuilderError::UninitializedFieldError(String::from_str("start_date")));
            },
        };
        let run_duration = match self.run_duration {
            Some(t) => t,
            None => {
                return Err(BctidesBuilderError::UninitializedFieldError(String::from_str("run_duration")));
            },
        };
        let tidal_potential_cutoff_depth = match self.tidal_potential_cutoff_depth {
            Some(z) => z,
            None => {
                return Err(
                    BctidesBuilderError::UninitializedFieldError(String::from_str("tidal_potential_cutoff_depth")),
                );
            },
        };
        let boundary_forcing_config = match self.boundary_forcing_config {
            Some(c) => c,
            None => {
                return Err(
                    BctidesBuilderError::UninitializedFieldError(String::from_str("boundary_forcing_config")),
                );
            },
        };
        Self::validate_tidal_potential_cutoff_depth(&tidal_potential_cutoff_depth)?;
        Ok(Bctides { start_date, run_duration, tidal_potential_cutoff_depth, boundary_forcing_config })
    }

    fn validate_tidal_potential_cutoff_depth(tidal_potential_cutoff_depth: &FloatBits) -> (r: Result<
        (),
        BctidesBuilderError,
    >)
        ensures
            is_below_zero(tidal_potential_cutoff_depth.bits) ==> r matches Err(
                BctidesBuilderError::InvalidTidalPotentialCutoffDepth,
            ),
            !is_below_zero(tidal_potential_cutoff_depth.bits) ==> r is Ok,
    {
        let bits = tidal_potential_cutoff_depth.bits;
        if bits > 0x8000_0000_0000_0000u64 && bits - 0x8000_0000_0000_0000u64 <= 0x7FF0_0000_0000_0000u64 {
            Err(BctidesBuilderError::InvalidTidalPotentialCutoffDepth)
        } else {
            Ok(())
        }
    }

    /// Sets the start of the run.
    pub fn start_date(self, start_date: UtcDateTime) -> (r: Self)
        ensures
            r == (BctidesBuilder { start_date: Some(start_date), ..self }),
    {
        BctidesBuilder { start_date: Some(start_date), ..self }
    }

    /// Sets the length of the run.
    pub fn run_duration(self, run_duration: RunDuration) -> (r: Self)
        ensures
            r == (BctidesBuilder { run_duration: Some(run_duration), ..self }),
    {
        BctidesBuilder { run_duration: Some(run_duration), ..self }
    }

    /// Sets the cut-off depth of the tidal potential.
    pub fn tidal_potential_cutoff_depth(self, tidal_potential_cutoff_depth: FloatBits) -> (r: Self)
        ensures
            r == (BctidesBuilder { tidal_potential_cutoff_depth: Some(tidal_potential_cutoff_depth), ..self }),
    {
        BctidesBuilder { tidal_potential_cutoff_depth: Some(tidal_potential_cutoff_depth), ..self }
    }

    /// Sets the forcing of the open boundary segments.
    pub fn boundary_forcing_config(self, boundary_forcing_config: BoundaryForcingConfig) -> (r: Self)
        ensures
            r == (BctidesBuilder { boundary_forcing_config: Some(boundary_forcing_config), ..self }),
    {
        BctidesBuilder { boundary_forcing_config: Some(boundary_forcing_config), ..self }
    }
}

/// Writing out the same forcing twice, from the same numeric rows, gives the
/// same text.
pub proof fn lemma_render_idempotent(
    b: Bctides,
    cutoff_depth: Seq<char>,
    potential_rows: Seq<Seq<char>>,
    forcing_rows: Seq<Seq<char>>,
    first: Seq<char>,
    second: Seq<char>,
)
    requires
        first == b.spec_render(cutoff_depth, potential_rows, forcing_rows),
        second == b.spec_render(cutoff_depth, potential_rows, forcing_rows),
    ensures
        first == second,
{
}

} // verus!
