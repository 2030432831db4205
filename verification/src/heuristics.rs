//! Standalone heuristics: pattern effectiveness over a feature record, and
//! the supervision and actor scores over lists of module or function names.

use vstd::prelude::*;
use crate::features::ComplexityFeatures;
use crate::ratio::Ratio;
use crate::text::{contains_sub, contains_sub_exec, str_to_chars};

verus! {

/// Effectiveness numerator over the denominator thirty: the mean of three
/// threshold indicators in tenths.  A cyclomatic estimate above five scores
/// eight else three; a comment ratio above one fifth scores nine else four;
/// an identifier average above six scores seven else five.
pub open spec fn spec_effectiveness_num(f: ComplexityFeatures) -> nat {
    let cr: nat = if f.cyclomatic_complexity.num > 5 * f.cyclomatic_complexity.den {
        8
    } else {
        3
    };
    let mb: nat = if 5 * f.comment_ratio.num > f.comment_ratio.den {
        9
    } else {
        4
    };
    let rs: nat = if f.identifier_length_avg.num > 6 * f.identifier_length_avg.den {
        7
    } else {
        5
    };
    cr + mb + rs
}

/// How effective a pattern is for the given measurements: the average of
/// three threshold indicators, an exact rational over thirty.  The pattern
/// label itself plays no part in the score; it is carried for the caller.
pub fn calculate_pattern_effectiveness(_pattern: &str, metrics: &ComplexityFeatures) -> (r: Ratio)
    requires
        metrics.wf(),
    ensures
        r.num == spec_effectiveness_num(*metrics),
        r.den == 30,
        r.num <= r.den,
{
    let cr: u128 = if metrics.cyclomatic_complexity.num > 5 * metrics.cyclomatic_complexity.den {
        8
    } else {
        3
    };
    let mb: u128 = if 5 * metrics.comment_ratio.num > metrics.comment_ratio.den {
        9
    } else {
        4
    };
    let rs: u128 = if metrics.identifier_length_avg.num > 6 * metrics.identifier_length_avg.den {
        7
    } else {
        5
    };
    Ratio { num: cr + mb + rs, den: 30 }
}

/// How many names contain either of two markers.
pub open spec fn contains_count(names: Seq<Seq<char>>, p1: Seq<char>, p2: Seq<char>) -> nat
    decreases names.len(),
{
    if names.len() == 0 {
        0
    } else {
        (if contains_sub(names[0], p1) || contains_sub(names[0], p2) {
            1nat
        } else {
            0nat
        }) + contains_count(names.skip(1), p1, p2)
    }
}

/// Exec count of names containing either of two markers; see
/// [`contains_count`].
fn contains_count_exec(names: &[String], p1: &Vec<char>, p2: &Vec<char>) -> (r: usize)
    ensures
        r == contains_count(names.deep_view(), p1@, p2@),
        r <= names@.len(),
{
    let n = names.len();
    let ghost dv = names.deep_view();
    let mut c: usize = 0;
    let mut i: usize = 0;
    assert(dv.skip(0) =~= dv);
    while i < n
        invariant
            i <= n,
            c <= i,
            n == dv.len(),
            dv == names.deep_view(),
            c + contains_count(dv.skip(i as int), p1@, p2@) == contains_count(dv, p1@, p2@),
        decreases n - i,
    {
        proof {
            assert(dv.skip(i as int)[0] == dv[i as int]);
            assert(dv.skip(i as int).skip(1) =~= dv.skip(i + 1));
            assert(dv[i as int] == names@[i as int]@);
        }
        let nc = str_to_chars(names[i].as_str());
        if contains_sub_exec(&nc, p1) || contains_sub_exec(&nc, p2) {
            c = c + 1;
        }
        i = i + 1;
    }
    c
}

/// Supervision numerator over the denominator ten: half a point per
/// supervisor name plus three tenths per server name, capped at ten.
pub open spec fn spec_supervision_num(names: Seq<Seq<char>>) -> nat {
    let sup = contains_count(names, "Supervisor"@, "supervisor"@);
    let gs = contains_count(names, "GenServer"@, "gen_server"@);
    let raw = 5 * sup + 3 * gs;
    if raw >= 100 {
        100
    } else {
        raw
    }
}

/// Supervision-tree complexity of a list of module names: half a point per
/// name containing a supervisor marker, three tenths per name containing a
/// server marker, capped at ten; exactly zero for an empty list.
pub fn calculate_supervision_complexity(modules: &[String]) -> (r: Ratio)
    ensures
        modules@.len() == 0 ==> r == (Ratio { num: 0, den: 1 }),
        modules@.len() > 0 ==> r.num == spec_supervision_num(modules.deep_view()) && r.den == 10,
        r.num <= 10 * r.den,
        1 <= r.den,
{
    if modules.is_empty() {
        return Ratio { num: 0, den: 1 };
    }
    let sup_a = str_to_chars("Supervisor");
    let sup_b = str_to_chars("supervisor");
    let gs_a = str_to_chars("GenServer");
    let gs_b = str_to_chars("gen_server");
    let sup = contains_count_exec(modules, &sup_a, &sup_b);
    let gs = contains_count_exec(modules, &gs_a, &gs_b);
    let raw: u128 = 5 * (sup as u128) + 3 * (gs as u128);
    let num = if raw >= 100 {
        100
    } else {
        raw
    };
    Ratio { num, den: 10 }
}

/// Actor numerator over the denominator ten: four tenths per spawning
/// name, three tenths per sending name, three tenths per receiving name,
/// capped at ten.
pub open spec fn spec_actor_num(names: Seq<Seq<char>>) -> nat {
    let spawns = contains_count(names, "spawn"@, "Task.async"@);
    let sends = contains_count(names, "send"@, "cast"@);
    let receives = contains_count(names, "receive"@, "call"@);
    let raw = 4 * spawns + 3 * sends + 3 * receives;
    if raw >= 100 {
        100
    } else {
        raw
    }
}

/// Actor-model complexity of a list of function names: weighted counts of
/// spawning, sending and receiving markers, capped at ten; exactly zero for
/// an empty list.
pub fn calculate_actor_complexity(functions: &[String]) -> (r: Ratio)
    ensures
        functions@.len() == 0 ==> r == (Ratio { num: 0, den: 1 }),
        functions@.len() > 0 ==> r.num == spec_actor_num(functions.deep_view()) && r.den == 10,
        r.num <= 10 * r.den,
        1 <= r.den,
{
    if functions.is_empty() {
        return Ratio { num: 0, den: 1 };
    }
    let sp_a = str_to_chars("spawn");
    let sp_b = str_to_chars("Task.async");
    let se_a = str_to_chars("send");
    let se_b = str_to_chars("cast");
    let re_a = str_to_chars("receive");
    let re_b = str_to_chars("call");
    let spawns = contains_count_exec(functions, &sp_a, &sp_b);
    let sends = contains_count_exec(functions, &se_a, &se_b);
    let receives = contains_count_exec(functions, &re_a, &re_b);
    let raw: u128 = 4 * (spawns as u128) + 3 * (sends as u128) + 3 * (receives as u128);
    let num = if raw >= 100 {
        100
    } else {
        raw
    };
    Ratio { num, den: 10 }
}

} // verus!
