use crate::text::{decimal, lower_of, lowercase, push_decimal};
use vstd::prelude::*;

verus! {

/// The name of a per-boundary option: the variable in lower case, a dash, the
/// 1-based boundary identifier, then `suffix`.
pub open spec fn option_name(variable: Seq<char>, i: nat, suffix: Seq<char>) -> Seq<char> {
    lower_of(variable) + seq!['-'] + decimal(i + 1) + suffix
}

/// A help sentence about a per-boundary option: `head`, the variable in lower
/// case, `middle`, then the 1-based boundary identifier.
pub open spec fn option_help(head: Seq<char>, variable: Seq<char>, middle: Seq<char>, i: nat) -> Seq<char> {
    head + lower_of(variable) + middle + decimal(i + 1)
}

/// Leaks `k`, so that its text lives as long as the program.
/// Relies on `String::into_boxed_str` and `Box::leak`, which keep the text.
#[verifier::external_body]
pub fn get_leaked_string(k: String) -> (r: &'static str)
    ensures
        r@ == k@,
{
    Box::leak(k.into_boxed_str())
}

fn named(variable: &str, i: u64, suffix: &str) -> (r: String)
    requires
        i < u64::MAX,
    ensures
        r@ == option_name(variable@, i as nat, suffix@),
{
    proof {
        reveal_strlit("-");
    }
    let mut s = lowercase(variable);
    s.append("-");
    push_decimal(&mut s, i + 1);
    s.append(suffix);
    assert("-"@ =~= seq!['-']);
    assert(s@ =~= option_name(variable@, i as nat, suffix@));
    s
}

fn sentence(head: &str, variable: &str, middle: &str, i: u64) -> (r: String)
    requires
        i < u64::MAX,
    ensures
        r@ == option_help(head@, variable@, middle@, i as nat),
{
    let mut s = String::from_str(head);
    let v = lowercase(variable);
    s.append(v.as_str());
    s.append(middle);
    push_decimal(&mut s, i + 1);
    assert(s@ =~= option_help(head@, variable@, middle@, i as nat));
    s
}

/// `<variable>-<id>`: the option that sets a variable's forcing type.
pub fn get_base_name(i: &usize, variable: &str) -> (r: &'static str)
    requires
        *i < usize::MAX,
    ensures
        r@ == option_name(variable@, *i as nat, ""@),
{
    get_leaked_string(named(variable, *i as u64, ""))
}

/// `<variable>-<id>-tidal-db`: the option that sets a variable's tidal
/// database.
pub fn get_tidal_db_base_name(i: &usize, variable: &str) -> (r: &'static str)
    requires
        *i < usize::MAX,
    ensures
        r@ == option_name(variable@, *i as nat, "-tidal-db"@),
{
    get_leaked_string(named(variable, *i as u64, "-tidal-db"))
}

/// `<variable>-<id>-all`: the option that enables every constituent.
pub fn get_all_tidal_constituents_base_name(i: &usize, variable: &str) -> (r: &'static str)
    requires
        *i < usize::MAX,
    ensures
        r@ == option_name(variable@, *i as nat, "-all"@),
{
    get_leaked_string(named(variable, *i as u64, "-all"))
}

/// `<variable>-<id>-major`: the option that enables the major constituents.
pub fn get_major_tidal_constituents_base_name(i: &usize, variable: &str) -> (r: &'static str)
    requires
        *i < usize::MAX,
    ensures
        r@ == option_name(variable@, *i as nat, "-major"@),
{
    get_leaked_string(named(variable, *i as u64, "-major"))
}

/// `<variable>-<id>-minor`: the option that enables the minor constituents.
pub fn get_minor_tidal_constituents_base_name(i: &usize, variable: &str) -> (r: &'static str)
    requires
        *i < usize::MAX,
    ensures
        r@ == option_name(variable@, *i as nat, "-minor"@),
{
    get_leaked_string(named(variable, *i as u64, "-minor"))
}

/// `<variable>-<id>-<constituent>`: the option that enables one constituent.
pub fn get_constituent_flag_base_name(i: &u32, variable: &str, constituent: &str) -> (r: &'static str)
    ensures
        r@ == option_name(variable@, *i as nat, seq!['-'] + constituent@),
{
    proof {
        reveal_strlit("-");
    }
    let mut suffix = String::from_str("-");
    suffix.append(constituent);
    assert("-"@ =~= seq!['-']);
    get_leaked_string(named(variable, *i as u64, suffix.as_str()))
}

/// `<variable>-<id>-baroclinic-db`: the option that sets a variable's
/// baroclinic database.
pub fn get_baroclinic_db_base_name(i: &usize, variable: &str) -> (r: &'static str)
    requires
        *i < usize::MAX,
    ensures
        r@ == option_name(variable@, *i as nat, "-baroclinic-db"@),
{
    get_leaked_string(named(variable, *i as u64, "-baroclinic-db"))
}

/// `elev-th-<id>`: the option that names a boundary's elevation time history.
pub fn get_elev_th_base_name(i: &usize) -> (r: &'static str)
    requires
        *i < usize::MAX,
    ensures
        r@ == "elev-th-"@ + decimal(*i as nat + 1),
{
    let mut s = String::from_str("elev-th-");
    push_decimal(&mut s, (*i as u64) + 1);
    get_leaked_string(s)
}

/// The help text of the option that sets a variable's forcing type.
pub fn get_variable_help(i: &usize, variable: &str) -> (r: &'static str)
    requires
        *i < usize::MAX,
    ensures
        r@ == option_help("Sets the forcing type for "@, variable@, " on boundary with id = "@, *i as nat),
{
    get_leaked_string(sentence("Sets the forcing type for ", variable, " on boundary with id = ", *i as u64))
}

/// The help text of the option that sets a variable's tidal database.
pub fn get_tidal_db_help(i: &usize, variable: &str) -> (r: &'static str)
    requires
        *i < usize::MAX,
    ensures
        r@ == option_help("Sets the tidal database for "@, variable@, " on boundary with id = "@, *i as nat),
{
    get_leaked_string(sentence("Sets the tidal database for ", variable, " on boundary with id = ", *i as u64))
}

/// The help text of the option that sets a variable's baroclinic database.
pub fn get_baroclinic_db_help(i: &usize, variable: &str) -> (r: &'static str)
    requires
        *i < usize::MAX,
    ensures
        r@ == option_help(
            "Sets the baroclinic database for "@,
            variable@,
            " on boundary with id = "@,
            *i as nat,
        ),
{
    get_leaked_string(
        sentence("Sets the baroclinic database for ", variable, " on boundary with id = ", *i as u64),
    )
}

/// The help text of the option that names a boundary's elevation time
/// history.
pub fn get_elev_th_help(i: &usize) -> (r: &'static str)
    requires
        *i < usize::MAX,
    ensures
        r@ == "Path to elev.th file. Required if using elevation of type 1 on boundary id "@ + decimal(
            *i as nat + 1,
        ) + " "@,
{
    let mut s = String::from_str("Path to elev.th file. Required if using elevation of type 1 on boundary id ");
    push_decimal(&mut s, (*i as u64) + 1);
    s.append(" ");
    get_leaked_string(s)
}

} // verus!
