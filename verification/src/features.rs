//! Feature extraction: one pass over a code text yields the fixed record of
//! measurements that the scoring functions consume.

use vstd::prelude::*;
use vstd::arithmetic::mul::lemma_mul_inequality;
use crate::lang::Lang;
use crate::lines::{
    comment_count, comment_count_exec, lemma_comment_le, lemma_lines_bounds, nest_max,
    nest_max_exec, nonempty_count, nonempty_count_exec, spec_lines, split_lines, sum_lens,
};
use crate::patterns::{
    get_closing_patterns, get_comment_patterns, get_control_flow_patterns, get_function_patterns,
    get_opening_patterns, get_operator_patterns, spec_closing_pattern, spec_comment_patterns,
    spec_control_flow_patterns, spec_function_patterns, spec_opening_pattern,
    spec_operator_patterns,
};
use crate::ratio::Ratio;
use crate::text::{
    count_patterns_seq, count_patterns_vecs, lemma_count_patterns_le, str_to_chars,
};
use crate::tokens::{ident_count, ident_len_sum, ident_stats, spec_tokens};

verus! {

/// A positive denominator: counts that may be zero divide as one.
pub open spec fn at_least_one(n: nat) -> nat {
    if n == 0 {
        1
    } else {
        n
    }
}

/// Total number of lines of a code text.
pub open spec fn spec_total_lines(code: Seq<char>) -> nat {
    spec_lines(code).len()
}

/// Number of lines that are non-empty once trimmed.
pub open spec fn spec_non_empty_lines(code: Seq<char>) -> nat {
    nonempty_count(spec_lines(code))
}

/// Occurrences of the language's function-declaration markers.
pub open spec fn spec_function_count(code: Seq<char>, language: Lang) -> nat {
    count_patterns_seq(code, spec_function_patterns(language))
}

/// Occurrences of the language's control-flow markers.
pub open spec fn spec_control_flow_count(code: Seq<char>, language: Lang) -> nat {
    count_patterns_seq(code, spec_control_flow_patterns(language))
}

/// Occurrences of the language's operator markers.
pub open spec fn spec_operator_count(code: Seq<char>, language: Lang) -> nat {
    count_patterns_seq(code, spec_operator_patterns(language))
}

/// Greatest nesting depth reached, scanning the lines against the
/// language's single opening and closing delimiter.
pub open spec fn spec_nesting_depth(code: Seq<char>, language: Lang) -> nat {
    nest_max(
        spec_lines(code),
        seq![spec_opening_pattern(language)],
        seq![spec_closing_pattern(language)],
        0,
    )
}

/// Number of lines whose trimmed text begins with a comment prefix of the
/// language.
pub open spec fn spec_comment_lines(code: Seq<char>, language: Lang) -> nat {
    comment_count(spec_lines(code), spec_comment_patterns(language))
}

/// Summed length of the identifier tokens of the text.
pub open spec fn spec_ident_len_total(code: Seq<char>) -> nat {
    ident_len_sum(spec_tokens(code))
}

/// Number of identifier tokens of the text.
pub open spec fn spec_ident_count(code: Seq<char>) -> nat {
    ident_count(spec_tokens(code))
}

/// The cyclomatic estimate, one plus the control-flow count plus half the
/// operator count, kept exact over the fixed denominator two.
pub open spec fn spec_cyclomatic_num(code: Seq<char>, language: Lang) -> nat {
    2 + 2 * spec_control_flow_count(code, language) + spec_operator_count(code, language)
}

/// The measurements extracted from one code text in one pass.
///
/// Counts are plain integers; the three derived measures are exact
/// rationals.  `comment_ratio` is the comment-line share of all lines,
/// `identifier_length_avg` the mean identifier-token length, and
/// `cyclomatic_complexity` the cyclomatic estimate, which is at least one.
#[derive(Clone, Debug)]
pub struct ComplexityFeatures {
    pub total_lines: usize,
    pub non_empty_lines: usize,
    pub function_count: usize,
    pub control_flow_count: usize,
    pub nesting_depth: usize,
    pub operator_count: usize,
    pub comment_ratio: Ratio,
    pub identifier_length_avg: Ratio,
    pub cyclomatic_complexity: Ratio,
}

impl ComplexityFeatures {
    /// Well-formed: the three rational fields have positive denominators
    /// and parts small enough for the scoring arithmetic.
    pub open spec fn wf(self) -> bool {
        &&& self.comment_ratio.wf()
        &&& self.identifier_length_avg.wf()
        &&& self.cyclomatic_complexity.wf()
    }
}

/// Converts borrowed string slices to owned character vectors.
fn strs_to_char_vecs(pats: &[&str]) -> (r: Vec<Vec<char>>)
    ensures
        r.deep_view() == pats.deep_view(),
{
    let n = pats.len();
    let mut r: Vec<Vec<char>> = Vec::new();
    let mut k: usize = 0;
    while k < n
        invariant
            k <= n,
            n == pats@.len(),
            r.deep_view() =~= pats.deep_view().take(k as int),
        decreases n - k,
    {
        let ghost old_dv = r.deep_view();
        let c = str_to_chars(pats[k]);
        proof {
            assert(c.deep_view() =~= pats@[k as int]@);
        }
        r.push(c);
        proof {
            assert(r.deep_view() =~= old_dv.push(pats.deep_view()[k as int]));
            assert(pats.deep_view().take(k + 1) =~= pats.deep_view().take(k as int).push(
                pats.deep_view()[k as int],
            ));
        }
        k = k + 1;
    }
    assert(pats.deep_view().take(n as int) =~= pats.deep_view());
    r
}

/// Converts owned strings to character vectors.
fn strings_to_char_vecs(pats: &[String]) -> (r: Vec<Vec<char>>)
    ensures
        r.deep_view() == pats.deep_view(),
{
    let n = pats.len();
    let mut r: Vec<Vec<char>> = Vec::new();
    let mut k: usize = 0;
    while k < n
        invariant
            k <= n,
            n == pats@.len(),
            r.deep_view() =~= pats.deep_view().take(k as int),
        decreases n - k,
    {
        let ghost old_dv = r.deep_view();
        let c = str_to_chars(pats[k].as_str());
        proof {
            assert(c.deep_view() =~= pats@[k as int]@);
        }
        r.push(c);
        proof {
            assert(r.deep_view() =~= old_dv.push(pats.deep_view()[k as int]));
            assert(pats.deep_view().take(k + 1) =~= pats.deep_view().take(k as int).push(
                pats.deep_view()[k as int],
            ));
        }
        k = k + 1;
    }
    assert(pats.deep_view().take(n as int) =~= pats.deep_view());
    r
}

/// Counts every pattern's non-overlapping occurrences over the whole code
/// text and sums the counts.
pub fn count_patterns(code: &str, patterns: &[&str]) -> (r: usize)
    requires
        patterns@.len() * code@.len() <= usize::MAX,
    ensures
        r == count_patterns_seq(code@, patterns.deep_view()),
{
    let t = str_to_chars(code);
    let pv = strs_to_char_vecs(patterns);
    count_patterns_vecs(&t, &pv)
}

/// Greatest nesting depth of the code, scanning each line for the
/// language's opening and closing delimiter; see [`spec_nesting_depth`].
pub fn calculate_max_nesting_depth(code: &str, language: Lang) -> (r: usize)
    ensures
        r == spec_nesting_depth(code@, language),
{
    let t = str_to_chars(code);
    let lines = split_lines(&t);
    let o = str_to_chars(get_opening_patterns(language));
    let c = str_to_chars(get_closing_patterns(language));
    proof {
        assert(o.deep_view() =~= o@);
        assert(c.deep_view() =~= c@);
    }
    let mut opens: Vec<Vec<char>> = Vec::new();
    opens.push(o);
    let mut closes: Vec<Vec<char>> = Vec::new();
    closes.push(c);
    proof {
        assert(opens.deep_view() =~= seq![spec_opening_pattern(language)]);
        assert(closes.deep_view() =~= seq![spec_closing_pattern(language)]);
        lemma_lines_bounds(code@, Seq::empty());
    }
    let tn = t.len();
    proof {
        assert(sum_lens(lines.deep_view()) <= tn);
        assert(opens.deep_view().len() * sum_lens(lines.deep_view()) == sum_lens(
            lines.deep_view(),
        ));
    }
    nest_max_exec(&lines, &opens, &closes)
}

/// Greatest nesting depth of the code against caller-supplied opening and
/// closing delimiter lists, with the same per-line scan and clamping.
pub fn calculate_max_nesting_depth_with_patterns(
    code: &str,
    opening_patterns: &[&str],
    closing_patterns: &[&str],
) -> (r: usize)
    requires
        opening_patterns@.len() * code@.len() <= usize::MAX,
    ensures
        r == nest_max(
            spec_lines(code@),
            opening_patterns.deep_view(),
            closing_patterns.deep_view(),
            0,
        ),
{
    let t = str_to_chars(code);
    let lines = split_lines(&t);
    let opens = strs_to_char_vecs(opening_patterns);
    let closes = strs_to_char_vecs(closing_patterns);
    proof {
        lemma_lines_bounds(code@, Seq::empty());
        assert(opens.deep_view().len() * sum_lens(lines.deep_view()) <= opening_patterns@.len()
            * code@.len()) by (nonlinear_arith)
            requires
                opens.deep_view().len() == opening_patterns@.len(),
                sum_lens(lines.deep_view()) <= code@.len(),
        ;
    }
    nest_max_exec(&lines, &opens, &closes)
}

/// The comment-line share of all lines: the number of comment lines over
/// the total line count, zero over one for an empty text.
pub fn calculate_comment_ratio(code: &str, language: Lang) -> (r: Ratio)
    ensures
        r.num == spec_comment_lines(code@, language),
        r.den == at_least_one(spec_total_lines(code@)),
        r.num <= r.den,
        r.wf(),
{
    let t = str_to_chars(code);
    let lines = split_lines(&t);
    let cpats = get_comment_patterns(language);
    let cv = strs_to_char_vecs(cpats.as_slice());
    let cc = comment_count_exec(&lines, &cv);
    let tl = lines.len();
    proof {
        lemma_comment_le(lines.deep_view(), cv.deep_view());
        lemma_lines_bounds(code@, Seq::empty());
    }
    Ratio {
        num: cc as u128,
        den: if tl == 0 {
            1
        } else {
            tl as u128
        },
    }
}

/// The comment-line share of all lines against caller-supplied comment
/// prefixes.
pub fn calculate_comment_ratio_with_patterns(code: &str, comment_patterns: &[&str]) -> (r: Ratio)
    ensures
        r.num == comment_count(spec_lines(code@), comment_patterns.deep_view()),
        r.den == at_least_one(spec_total_lines(code@)),
        r.num <= r.den,
        r.wf(),
{
    let t = str_to_chars(code);
    let lines = split_lines(&t);
    let cv = strs_to_char_vecs(comment_patterns);
    let cc = comment_count_exec(&lines, &cv);
    let tl = lines.len();
    proof {
        lemma_comment_le(lines.deep_view(), cv.deep_view());
        lemma_lines_bounds(code@, Seq::empty());
    }
    Ratio {
        num: cc as u128,
        den: if tl == 0 {
            1
        } else {
            tl as u128
        },
    }
}

/// The mean length of the identifier tokens: total identifier length over
/// the identifier count, zero over one when there is none.  The language
/// tag plays no part; the measure is language-agnostic.
pub fn calculate_avg_identifier_length(code: &str, _language: Lang) -> (r: Ratio)
    ensures
        r.num == spec_ident_len_total(code@),
        r.den == at_least_one(spec_ident_count(code@)),
        r.wf(),
{
    let t = str_to_chars(code);
    let (total, cnt) = ident_stats(&t);
    Ratio {
        num: total as u128,
        den: if cnt == 0 {
            1
        } else {
            cnt as u128
        },
    }
}

/// The cyclomatic estimate: one plus the control-flow count plus half the
/// operator count, exact over the denominator two, hence at least one.
pub fn calculate_cyclomatic_complexity_estimate(code: &str, language: Lang) -> (r: Ratio)
    requires
        code@.len() * 8 <= usize::MAX,
    ensures
        r.num == spec_cyclomatic_num(code@, language),
        r.den == 2,
        r.num >= r.den,
{
    let t = str_to_chars(code);
    let cfv = strs_to_char_vecs(get_control_flow_patterns(language).as_slice());
    let opv = strs_to_char_vecs(get_operator_patterns(language).as_slice());
    proof {
        lemma_mul_inequality(cfv.deep_view().len() as int, 8, code@.len() as int);
        lemma_mul_inequality(opv.deep_view().len() as int, 8, code@.len() as int);
    }
    let cf = count_patterns_vecs(&t, &cfv);
    let op = count_patterns_vecs(&t, &opv);
    Ratio { num: 2 + 2 * (cf as u128) + (op as u128), den: 2 }
}

/// The cyclomatic estimate stays within the well-formedness bound whenever
/// the text is within the extraction's size bound.
proof fn lemma_cyclomatic_wf(code: Seq<char>, language: Lang)
    requires
        code.len() * 32 <= usize::MAX,
    ensures
        spec_cyclomatic_num(code, language) <= u64::MAX,
{
    lemma_count_patterns_le(code, spec_control_flow_patterns(language));
    lemma_count_patterns_le(code, spec_operator_patterns(language));
    assert(spec_control_flow_patterns(language).len() <= 7);
    assert(spec_operator_patterns(language).len() <= 7);
    assert(spec_control_flow_count(code, language) <= 7 * code.len()) by (nonlinear_arith)
        requires
            spec_control_flow_count(code, language) <= spec_control_flow_patterns(language).len()
                * code.len(),
            spec_control_flow_patterns(language).len() <= 7,
    ;
    assert(spec_operator_count(code, language) <= 7 * code.len()) by (nonlinear_arith)
        requires
            spec_operator_count(code, language) <= spec_operator_patterns(language).len()
                * code.len(),
            spec_operator_patterns(language).len() <= 7,
    ;
}

/// Extracts the full feature record for a code text, using the language's
/// registry patterns throughout.  Every field is pinned exactly: the counts
/// are the registry-pattern occurrence counts, the comment ratio is at most
/// one, and the cyclomatic estimate is at least one.  The size bound keeps
/// every pattern sweep within a machine count.
pub fn extract_complexity_features(code: &str, language: Lang) -> (r: ComplexityFeatures)
    requires
        code@.len() * 32 <= usize::MAX,
    ensures
        r.total_lines == spec_total_lines(code@),
        r.non_empty_lines == spec_non_empty_lines(code@),
        r.function_count == spec_function_count(code@, language),
        r.control_flow_count == spec_control_flow_count(code@, language),
        r.nesting_depth == spec_nesting_depth(code@, language),
        r.operator_count == spec_operator_count(code@, language),
        r.comment_ratio.num == spec_comment_lines(code@, language),
        r.comment_ratio.den == at_least_one(spec_total_lines(code@)),
        r.comment_ratio.num <= r.comment_ratio.den,
        r.identifier_length_avg.num == spec_ident_len_total(code@),
        r.identifier_length_avg.den == at_least_one(spec_ident_count(code@)),
        r.cyclomatic_complexity.num == spec_cyclomatic_num(code@, language),
        r.cyclomatic_complexity.den == 2,
        r.cyclomatic_complexity.num >= r.cyclomatic_complexity.den,
        r.wf(),
{
    let fpats = get_function_patterns(language);
    let cfpats = get_control_flow_patterns(language);
    let oppats = get_operator_patterns(language);
    let fslice = fpats.as_slice();
    let cfslice = cfpats.as_slice();
    let opslice = oppats.as_slice();
    proof {
        assert(fslice.deep_view() =~= fpats.deep_view());
        assert(cfslice.deep_view() =~= cfpats.deep_view());
        assert(opslice.deep_view() =~= oppats.deep_view());
        lemma_mul_inequality(fslice@.len() as int, 32, code@.len() as int);
        lemma_mul_inequality(cfslice@.len() as int, 32, code@.len() as int);
        lemma_mul_inequality(opslice@.len() as int, 32, code@.len() as int);
        lemma_cyclomatic_wf(code@, language);
    }
    let function_count = count_patterns(code, fslice);
    let control_flow_count = count_patterns(code, cfslice);
    let operator_count = count_patterns(code, opslice);
    let nesting_depth = calculate_max_nesting_depth(code, language);
    let comment_ratio = calculate_comment_ratio(code, language);
    let identifier_length_avg = calculate_avg_identifier_length(code, language);
    let cyclomatic_complexity = calculate_cyclomatic_complexity_estimate(code, language);
    let t = str_to_chars(code);
    let lines = split_lines(&t);
    let total_lines = lines.len();
    let non_empty_lines = nonempty_count_exec(&lines);
    proof {
        lemma_lines_bounds(code@, Seq::empty());
    }
    ComplexityFeatures {
        total_lines,
        non_empty_lines,
        function_count,
        control_flow_count,
        nesting_depth,
        operator_count,
        comment_ratio,
        identifier_length_avg,
        cyclomatic_complexity,
    }
}

/// Extracts the feature record with caller-supplied pattern lists taking
/// the place of the registry for the function, control-flow, operator,
/// delimiter and comment categories.  The identifier-length average and the
/// cyclomatic estimate are never overridable: they stay keyed on the
/// language's registry entry.
pub fn extract_complexity_features_with_patterns(
    code: &str,
    language: Lang,
    function_patterns: &[String],
    control_flow_patterns: &[String],
    operator_patterns: &[String],
    opening_delimiters: &[String],
    closing_delimiters: &[String],
    comment_patterns: &[String],
) -> (r: ComplexityFeatures)
    requires
        code@.len() * 32 <= usize::MAX,
        function_patterns@.len() * code@.len() <= usize::MAX,
        control_flow_patterns@.len() * code@.len() <= usize::MAX,
        operator_patterns@.len() * code@.len() <= usize::MAX,
        opening_delimiters@.len() * code@.len() <= usize::MAX,
    ensures
        r.total_lines == spec_total_lines(code@),
        r.non_empty_lines == spec_non_empty_lines(code@),
        r.function_count == count_patterns_seq(code@, function_patterns.deep_view()),
        r.control_flow_count == count_patterns_seq(code@, control_flow_patterns.deep_view()),
        r.nesting_depth == nest_max(
            spec_lines(code@),
            opening_delimiters.deep_view(),
            closing_delimiters.deep_view(),
            0,
        ),
        r.operator_count == count_patterns_seq(code@, operator_patterns.deep_view()),
        r.comment_ratio.num == comment_count(spec_lines(code@), comment_patterns.deep_view()),
        r.comment_ratio.den == at_least_one(spec_total_lines(code@)),
        r.comment_ratio.num <= r.comment_ratio.den,
        r.identifier_length_avg.num == spec_ident_len_total(code@),
        r.identifier_length_avg.den == at_least_one(spec_ident_count(code@)),
        r.cyclomatic_complexity.num == spec_cyclomatic_num(code@, language),
        r.cyclomatic_complexity.den == 2,
        r.cyclomatic_complexity.num >= r.cyclomatic_complexity.den,
        r.wf(),
{
    let t = str_to_chars(code);
    let lines = split_lines(&t);
    let fv = strings_to_char_vecs(function_patterns);
    let cfv = strings_to_char_vecs(control_flow_patterns);
    let opv = strings_to_char_vecs(operator_patterns);
    let odv = strings_to_char_vecs(opening_delimiters);
    let cdv = strings_to_char_vecs(closing_delimiters);
    let cmv = strings_to_char_vecs(comment_patterns);
    proof {
        assert(fv@.len() == fv.deep_view().len());
        assert(cfv@.len() == cfv.deep_view().len());
        assert(opv@.len() == opv.deep_view().len());
        assert(fv@.len() == function_patterns@.len());
        assert(cfv@.len() == control_flow_patterns@.len());
        assert(opv@.len() == operator_patterns@.len());
    }
    let function_count = count_patterns_vecs(&t, &fv);
    let control_flow_count = count_patterns_vecs(&t, &cfv);
    let operator_count = count_patterns_vecs(&t, &opv);
    proof {
        lemma_lines_bounds(code@, Seq::empty());
        assert(odv.deep_view().len() * sum_lens(lines.deep_view()) <= opening_delimiters@.len()
            * code@.len()) by (nonlinear_arith)
            requires
                odv.deep_view().len() == opening_delimiters@.len(),
                sum_lens(lines.deep_view()) <= code@.len(),
        ;
    }
    let nesting_depth = nest_max_exec(&lines, &odv, &cdv);
    let cc = comment_count_exec(&lines, &cmv);
    let total_lines = lines.len();
    let non_empty_lines = nonempty_count_exec(&lines);
    proof {
        lemma_comment_le(lines.deep_view(), cmv.deep_view());
    }
    let comment_ratio = Ratio {
        num: cc as u128,
        den: if total_lines == 0 {
            1
        } else {
            total_lines as u128
        },
    };
    let identifier_length_avg = calculate_avg_identifier_length(code, language);
    let cyclomatic_complexity = calculate_cyclomatic_complexity_estimate(code, language);
    proof {
        lemma_cyclomatic_wf(code@, language);
    }
    ComplexityFeatures {
        total_lines,
        non_empty_lines,
        function_count,
        control_flow_count,
        nesting_depth,
        operator_count,
        comment_ratio,
        identifier_length_avg,
        cyclomatic_complexity,
    }
}

} // verus!
