//! The three sub-score calculators and the weighted combiner.
//!
//! Every score is an exact rational.  Numerator formulas are stated over a
//! fixed denominator per score: the structural score over ten times the
//! non-empty line count, the cognitive score over twenty times the
//! cyclomatic denominator, the maintainability score over two (its three
//! step factors are halves), and the combined score over one hundred times
//! the non-empty line count.

use vstd::prelude::*;
use crate::features::{
    at_least_one, extract_complexity_features, extract_complexity_features_with_patterns,
    spec_comment_lines, spec_control_flow_count, spec_cyclomatic_num, spec_function_count,
    spec_ident_count, spec_ident_len_total, spec_nesting_depth, spec_non_empty_lines,
    spec_operator_count, spec_total_lines, ComplexityFeatures,
};
use crate::lang::Lang;
use crate::lines::{comment_count, nest_max, spec_lines};
use crate::ratio::Ratio;
use crate::text::count_patterns_seq;

verus! {

/// Structural numerator over the denominator `10 * max(nel, 1)`: twice the
/// function density, the squared nesting depth over ten, and one and a half
/// times the operator density, capped at five.
pub open spec fn structural_num_of(fc: nat, op: nat, nel: nat, d: nat) -> nat {
    let nel1 = at_least_one(nel);
    let raw = 20 * fc + 15 * op + nel1 * d * d;
    if raw >= 50 * nel1 {
        50 * nel1
    } else {
        raw
    }
}

/// Cognitive numerator over the denominator `20 * cyd`: half the
/// control-flow count, four fifths of the nesting depth, and three tenths
/// of the cyclomatic estimate `cyn / cyd`, capped at five.
pub open spec fn cognitive_num_of(cf: nat, d: nat, cyn: nat, cyd: nat) -> nat {
    let raw = cyd * (10 * cf + 16 * d) + 6 * cyn;
    if raw >= 100 * cyd {
        100 * cyd
    } else {
        raw
    }
}

/// Maintainability numerator over the denominator two: three threshold
/// factors in halves.  Comments above one fifth of the lines lower the
/// comment factor from two to one half; identifiers averaging above eight
/// characters lower the identifier factor from one and a half to one half;
/// more than one hundred non-empty lines raise the length factor from one
/// half to one and a half.  The sum is capped at five.
pub open spec fn maintainability_num_of(cn: nat, cd: nat, idn: nat, idd: nat, nel: nat) -> nat {
    let cfac: nat = if 5 * cn > cd {
        1
    } else {
        4
    };
    let ifac: nat = if idn > 8 * idd {
        1
    } else {
        3
    };
    let lfac: nat = if nel > 100 {
        3
    } else {
        1
    };
    let sum = cfac + ifac + lfac;
    if sum >= 10 {
        10
    } else {
        sum
    }
}

/// Combined numerator over the denominator `100 * max(nel, 1)`: the three
/// sub-scores weighted two fifths, two fifths and one fifth, capped at ten.
/// `sn` is over `10 * max(nel, 1)`, `cn` over forty, `mn` over two.
pub open spec fn combined_num_of(sn: nat, cn: nat, mn: nat, nel: nat) -> nat {
    let nel1 = at_least_one(nel);
    let raw = 4 * sn + cn * nel1 + 10 * mn * nel1;
    if raw >= 1000 * nel1 {
        1000 * nel1
    } else {
        raw
    }
}

/// The structural sub-score of a feature record, as an exact rational.
pub open spec fn spec_structural_num(f: ComplexityFeatures) -> nat {
    structural_num_of(
        f.function_count as nat,
        f.operator_count as nat,
        f.non_empty_lines as nat,
        f.nesting_depth as nat,
    )
}

/// The structural sub-score's denominator.
pub open spec fn spec_structural_den(f: ComplexityFeatures) -> nat {
    10 * at_least_one(f.non_empty_lines as nat)
}

/// The cognitive sub-score of a feature record.
pub open spec fn spec_cognitive_num(f: ComplexityFeatures) -> nat {
    cognitive_num_of(
        f.control_flow_count as nat,
        f.nesting_depth as nat,
        f.cyclomatic_complexity.num as nat,
        f.cyclomatic_complexity.den as nat,
    )
}

/// The cognitive sub-score's denominator.
pub open spec fn spec_cognitive_den(f: ComplexityFeatures) -> nat {
    20 * f.cyclomatic_complexity.den as nat
}

/// The maintainability sub-score of a feature record, over the denominator
/// two.
pub open spec fn spec_maintainability_num(f: ComplexityFeatures) -> nat {
    maintainability_num_of(
        f.comment_ratio.num as nat,
        f.comment_ratio.den as nat,
        f.identifier_length_avg.num as nat,
        f.identifier_length_avg.den as nat,
        f.non_empty_lines as nat,
    )
}

/// Structural complexity: function density, squared nesting depth and
/// operator density, capped at five.  The result is exact: its numerator
/// and denominator are pinned, and it never exceeds five.
pub fn calculate_structural_complexity(features: &ComplexityFeatures) -> (r: Ratio)
    ensures
        r.num == spec_structural_num(*features),
        r.den == spec_structural_den(*features),
        r.num <= 5 * r.den,
        1 <= r.den,
{
    let nel1: u128 = if features.non_empty_lines == 0 {
        1
    } else {
        features.non_empty_lines as u128
    };
    let den: u128 = 10 * nel1;
    let cap: u128 = 50 * nel1;
    let d = features.nesting_depth;
    let num: u128;
    if d >= 8 {
        proof {
            let nel1s = at_least_one(features.non_empty_lines as nat);
            assert(nel1s * (d as nat) * (d as nat) >= 50 * nel1s) by (nonlinear_arith)
                requires
                    d >= 8,
                    nel1s >= 1,
            ;
        }
        num = cap;
    } else {
        proof {
            assert(nel1 * (d as u128) <= (u64::MAX as u128) * 8) by (nonlinear_arith)
                requires
                    d < 8,
                    nel1 <= u64::MAX as u128,
            ;
            assert(nel1 * (d as u128) * (d as u128) <= nel1 * 64) by (nonlinear_arith)
                requires
                    d < 8,
                    nel1 >= 1,
            ;
            assert(nel1 * 64 <= (u64::MAX as u128) * 64) by (nonlinear_arith)
                requires
                    nel1 <= u64::MAX as u128,
            ;
        }
        let raw: u128 = 20 * (features.function_count as u128) + 15 * (features.operator_count
            as u128) + nel1 * (d as u128) * (d as u128);
        num = if raw >= cap {
            cap
        } else {
            raw
        };
    }
    Ratio { num, den }
}

/// Cognitive complexity: half the control-flow count, four fifths of the
/// nesting depth and three tenths of the cyclomatic estimate, capped at
/// five.
pub fn calculate_cognitive_complexity(features: &ComplexityFeatures) -> (r: Ratio)
    requires
        features.cyclomatic_complexity.wf(),
    ensures
        r.num == spec_cognitive_num(*features),
        r.den == spec_cognitive_den(*features),
        r.num <= 5 * r.den,
        1 <= r.den,
{
    let cyn = features.cyclomatic_complexity.num;
    let cyd = features.cyclomatic_complexity.den;
    let cf = features.control_flow_count;
    let d = features.nesting_depth;
    let den: u128 = 20 * cyd;
    let cap: u128 = 100 * cyd;
    let num: u128;
    if cf >= 10 || d >= 7 || cyn >= 17 * cyd {
        proof {
            let raw = (cyd as nat) * (10 * (cf as nat) + 16 * (d as nat)) + 6 * (cyn as nat);
            if cf >= 10 || d >= 7 {
                assert((cyd as nat) * (10 * (cf as nat) + 16 * (d as nat)) >= 100 * (cyd as nat))
                    by (nonlinear_arith)
                    requires
                        cf >= 10 || d >= 7,
                        cyd >= 1,
                ;
            } else {
                assert((cyd as nat) * (10 * (cf as nat) + 16 * (d as nat)) >= 0) by (nonlinear_arith);
            }
            assert(raw >= 100 * (cyd as nat));
        }
        num = cap;
    } else {
        proof {
            assert(cyd * (10 * (cf as u128) + 16 * (d as u128)) <= (u64::MAX as u128) * 186)
                by (nonlinear_arith)
                requires
                    cf < 10,
                    d < 7,
                    cyd <= u64::MAX as u128,
            ;
        }
        let raw: u128 = cyd * (10 * (cf as u128) + 16 * (d as u128)) + 6 * cyn;
        num = if raw >= cap {
            cap
        } else {
            raw
        };
    }
    Ratio { num, den }
}

/// Maintainability complexity: the three threshold factors summed and
/// capped at five, over the denominator two.
pub fn calculate_maintainability_complexity(features: &ComplexityFeatures) -> (r: Ratio)
    requires
        features.comment_ratio.wf(),
        features.identifier_length_avg.wf(),
    ensures
        r.num == spec_maintainability_num(*features),
        r.den == 2,
        r.num <= 5 * r.den,
{
    let cr = features.comment_ratio;
    let ia = features.identifier_length_avg;
    let cfac: u128 = if 5 * cr.num > cr.den {
        1
    } else {
        4
    };
    let ifac: u128 = if ia.num > 8 * ia.den {
        1
    } else {
        3
    };
    let lfac: u128 = if features.non_empty_lines > 100 {
        3
    } else {
        1
    };
    let sum = cfac + ifac + lfac;
    let num = if sum >= 10 {
        10
    } else {
        sum
    };
    Ratio { num, den: 2 }
}

/// The final complexity score of a code text, as a spec value: the three
/// sub-scores weighted two fifths, two fifths and one fifth, capped at ten,
/// over the denominator [`spec_score_den`].
pub open spec fn spec_score_num(code: Seq<char>, language: Lang) -> nat {
    let nel = spec_non_empty_lines(code);
    let d = spec_nesting_depth(code, language);
    combined_num_of(
        structural_num_of(
            spec_function_count(code, language),
            spec_operator_count(code, language),
            nel,
            d,
        ),
        cognitive_num_of(spec_control_flow_count(code, language), d, spec_cyclomatic_num(code, language), 2),
        maintainability_num_of(
            spec_comment_lines(code, language),
            at_least_one(spec_total_lines(code)),
            spec_ident_len_total(code),
            at_least_one(spec_ident_count(code)),
            nel,
        ),
        nel,
    )
}

/// The final score's denominator: one hundred times the non-empty line
/// count, at least one hundred.
pub open spec fn spec_score_den(code: Seq<char>) -> nat {
    100 * at_least_one(spec_non_empty_lines(code))
}

/// The complexity score lies in the closed range zero to ten, for every
/// code text and every language.
pub proof fn lemma_complexity_score_in_range(code: Seq<char>, language: Lang)
    ensures
        spec_score_num(code, language) <= 10 * spec_score_den(code),
        spec_score_den(code) >= 100,
{
}

/// The combiner's cap at ten is unreachable: each sub-score is capped at
/// five, so their blend never exceeds five.  The wider cap is kept for
/// consistency with the stated range, not because it can bind.
pub proof fn lemma_score_effective_cap(code: Seq<char>, language: Lang)
    ensures
        spec_score_num(code, language) <= 5 * spec_score_den(code),
{
    let nel = spec_non_empty_lines(code);
    let nel1 = at_least_one(nel);
    let d = spec_nesting_depth(code, language);
    let sn = structural_num_of(
        spec_function_count(code, language),
        spec_operator_count(code, language),
        nel,
        d,
    );
    let cn = cognitive_num_of(
        spec_control_flow_count(code, language),
        d,
        spec_cyclomatic_num(code, language),
        2,
    );
    let mn = maintainability_num_of(
        spec_comment_lines(code, language),
        at_least_one(spec_total_lines(code)),
        spec_ident_len_total(code),
        at_least_one(spec_ident_count(code)),
        nel,
    );
    assert(sn <= 50 * nel1);
    assert(cn <= 200);
    assert(mn <= 10);
    assert(cn * nel1 <= 200 * nel1) by (nonlinear_arith)
        requires
            cn <= 200,
    ;
    assert(10 * mn * nel1 <= 100 * nel1) by (nonlinear_arith)
        requires
            mn <= 10,
    ;
    assert(4 * sn + cn * nel1 + 10 * mn * nel1 <= 500 * nel1);
}

/// Combines the three sub-scores of an extracted feature record.  The
/// cyclomatic denominator is fixed at two by extraction, which puts the
/// cognitive denominator at forty and the combined one at one hundred times
/// the non-empty line count.
fn combine_scores(features: &ComplexityFeatures) -> (r: Ratio)
    requires
        features.wf(),
        features.cyclomatic_complexity.den == 2,
    ensures
        r.num == combined_num_of(
            spec_structural_num(*features),
            spec_cognitive_num(*features),
            spec_maintainability_num(*features),
            features.non_empty_lines as nat,
        ),
        r.den == 100 * at_least_one(features.non_empty_lines as nat),
        r.num <= 10 * r.den,
        1 <= r.den,
{
    let s = calculate_structural_complexity(features);
    let c = calculate_cognitive_complexity(features);
    let m = calculate_maintainability_complexity(features);
    let nel1: u128 = if features.non_empty_lines == 0 {
        1
    } else {
        features.non_empty_lines as u128
    };
    proof {
        assert(s.num <= 50 * nel1);
        assert(c.num <= 200);
        assert(m.num <= 10);
        assert(c.num * nel1 <= 200 * nel1) by (nonlinear_arith)
            requires
                c.num <= 200,
        ;
        assert(10 * m.num * nel1 <= 100 * nel1) by (nonlinear_arith)
            requires
                m.num <= 10,
        ;
    }
    let den: u128 = 100 * nel1;
    let cap: u128 = 1000 * nel1;
    let raw: u128 = 4 * s.num + c.num * nel1 + 10 * m.num * nel1;
    let num = if raw >= cap {
        cap
    } else {
        raw
    };
    Ratio { num, den }
}

/// The complexity score of a code text for a language: the weighted blend
/// of the structural, cognitive and maintainability sub-scores, capped at
/// ten.  The result is an exact rational, pinned to a pure function of the
/// input, so two calls on the same input yield the same score.
pub fn calculate_language_complexity_score(code: &str, language: Lang) -> (r: Ratio)
    requires
        code@.len() * 32 <= usize::MAX,
    ensures
        r.num == spec_score_num(code@, language),
        r.den == spec_score_den(code@),
        r.num <= 10 * r.den,
        1 <= r.den,
{
    let features = extract_complexity_features(code, language);
    combine_scores(&features)
}

/// The final complexity score with caller-supplied pattern lists, as a spec
/// value.  The override lists replace the registry for the function,
/// control-flow, operator, delimiter and comment categories; the cyclomatic
/// estimate and the identifier average stay keyed on the language.
pub open spec fn spec_override_score_num(
    code: Seq<char>,
    language: Lang,
    fpats: Seq<Seq<char>>,
    cfpats: Seq<Seq<char>>,
    oppats: Seq<Seq<char>>,
    opens: Seq<Seq<char>>,
    closes: Seq<Seq<char>>,
    cmts: Seq<Seq<char>>,
) -> nat {
    let nel = spec_non_empty_lines(code);
    let d = nest_max(spec_lines(code), opens, closes, 0);
    combined_num_of(
        structural_num_of(
            count_patterns_seq(code, fpats),
            count_patterns_seq(code, oppats),
            nel,
            d,
        ),
        cognitive_num_of(
            count_patterns_seq(code, cfpats),
            d,
            spec_cyclomatic_num(code, language),
            2,
        ),
        maintainability_num_of(
            comment_count(spec_lines(code), cmts),
            at_least_one(spec_total_lines(code)),
            spec_ident_len_total(code),
            at_least_one(spec_ident_count(code)),
            nel,
        ),
        nel,
    )
}

/// The complexity score with caller-supplied pattern lists; the same blend
/// as [`calculate_language_complexity_score`], over the override counts.
pub fn calculate_language_complexity_score_with_patterns(
    code: &str,
    language: Lang,
    function_patterns: &[String],
    control_flow_patterns: &[String],
    operator_patterns: &[String],
    opening_delimiters: &[String],
    closing_delimiters: &[String],
    comment_patterns: &[String],
) -> (r: Ratio)
    requires
        code@.len() * 32 <= usize::MAX,
        function_patterns@.len() * code@.len() <= usize::MAX,
        control_flow_patterns@.len() * code@.len() <= usize::MAX,
        operator_patterns@.len() * code@.len() <= usize::MAX,
        opening_delimiters@.len() * code@.len() <= usize::MAX,
    ensures
        r.num == spec_override_score_num(
            code@,
            language,
            function_patterns.deep_view(),
            control_flow_patterns.deep_view(),
            operator_patterns.deep_view(),
            opening_delimiters.deep_view(),
            closing_delimiters.deep_view(),
            comment_patterns.deep_view(),
        ),
        r.den == spec_score_den(code@),
        r.num <= 10 * r.den,
        1 <= r.den,
{
    let features = extract_complexity_features_with_patterns(
        code,
        language,
        function_patterns,
        control_flow_patterns,
        operator_patterns,
        opening_delimiters,
        closing_delimiters,
        comment_patterns,
    );
    combine_scores(&features)
}

} // verus!
