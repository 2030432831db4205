//! Tests of feature extraction: line handling, pattern counting, nesting
//! depth, comment ratio, identifier statistics and the cyclomatic estimate.

use code_complexity::{
    calculate_avg_identifier_length, calculate_comment_ratio,
    calculate_comment_ratio_with_patterns, calculate_cyclomatic_complexity_estimate,
    calculate_max_nesting_depth, calculate_max_nesting_depth_with_patterns, count_patterns,
    extract_complexity_features, extract_complexity_features_with_patterns, get_closing_patterns,
    get_comment_patterns, get_control_flow_patterns, get_function_patterns, get_opening_patterns,
    get_operator_patterns, Lang,
};

#[test]
fn empty_input_yields_zero_record() {
    let f = extract_complexity_features("", Lang::Python);
    assert_eq!(f.total_lines, 0);
    assert_eq!(f.non_empty_lines, 0);
    assert_eq!(f.function_count, 0);
    assert_eq!(f.control_flow_count, 0);
    assert_eq!(f.nesting_depth, 0);
    assert_eq!(f.operator_count, 0);
    assert_eq!(f.comment_ratio.num, 0);
    assert_eq!(f.comment_ratio.den, 1);
    assert_eq!(f.identifier_length_avg.num, 0);
    assert_eq!(f.identifier_length_avg.den, 1);
    // 1.0 + 0 + 0.5 * 0 = 1
    assert_eq!(f.cyclomatic_complexity.num, 2);
    assert_eq!(f.cyclomatic_complexity.den, 2);
}

#[test]
fn python_scenario_counts() {
    let code = "def f():\n    if x:\n        return 1\n";
    let f = extract_complexity_features(code, Lang::Python);
    assert_eq!(f.total_lines, 3);
    assert_eq!(f.non_empty_lines, 3);
    assert_eq!(f.function_count, 1);
    assert_eq!(f.control_flow_count, 1);
    // the colon opens a block and nothing ever closes one: depth only grows
    assert_eq!(f.nesting_depth, 2);
    assert_eq!(f.operator_count, 0);
}

#[test]
fn go_scenario_braces_and_depth() {
    let code = "func f() {\n if x {\n  return\n }\n}\n";
    assert_eq!(count_patterns(code, &["{"]), 2);
    assert_eq!(count_patterns(code, &["}"]), 2);
    assert_eq!(calculate_max_nesting_depth(code, Lang::Go), 2);
}

#[test]
fn override_patterns_take_effect() {
    let code = "f = lambda x: x\n";
    let default = extract_complexity_features(code, Lang::Python);
    assert_eq!(default.function_count, 0);
    let f = extract_complexity_features_with_patterns(
        code,
        Lang::Python,
        &["lambda ".to_string()],
        &[],
        &[],
        &[":".to_string()],
        &[],
        &["#".to_string()],
    );
    assert_eq!(f.function_count, 1);
    assert_eq!(f.control_flow_count, 0);
    assert_eq!(f.operator_count, 0);
    assert_eq!(f.nesting_depth, 1);
}

#[test]
fn counts_are_nonnegative_and_ratios_bounded() {
    let codes = ["", "x\n", "// c\nfn f() {}\n", "def g():\n    pass\n"];
    let langs = [Lang::Rust, Lang::Python, Lang::Other];
    for code in codes.iter() {
        for lang in langs.iter() {
            let f = extract_complexity_features(code, *lang);
            assert!(f.comment_ratio.num <= f.comment_ratio.den);
            assert!(f.comment_ratio.den >= 1);
            // cyclomatic estimate is always at least 1.0
            assert!(f.cyclomatic_complexity.num >= f.cyclomatic_complexity.den);
        }
    }
}

#[test]
fn comment_ratio_counts_prefixed_lines() {
    let code = "// hi\nfn main() {}\n";
    let r = calculate_comment_ratio(code, Lang::Rust);
    assert_eq!(r.num, 1);
    assert_eq!(r.den, 2);
}

#[test]
fn comment_ratio_with_custom_prefixes() {
    let code = ";; one\nx\n;; two\n";
    let r = calculate_comment_ratio_with_patterns(code, &[";;"]);
    assert_eq!(r.num, 2);
    assert_eq!(r.den, 3);
}

#[test]
fn comment_ratio_trims_before_matching() {
    let code = "    # indented comment\ncode\n";
    let r = calculate_comment_ratio(code, Lang::Python);
    assert_eq!(r.num, 1);
    assert_eq!(r.den, 2);
}

#[test]
fn avg_identifier_length_filters_tokens() {
    // "ab" is an identifier, "cd!" is not
    let r = calculate_avg_identifier_length("ab cd!\n", Lang::Other);
    assert_eq!(r.num, 2);
    assert_eq!(r.den, 1);
}

#[test]
fn avg_identifier_length_averages() {
    // def(3) if(2) return(6) 1(1), over 4 tokens; f():, x: are not identifiers
    let r = calculate_avg_identifier_length("def f():\n    if x:\n        return 1\n", Lang::Python);
    assert_eq!(r.num, 12);
    assert_eq!(r.den, 4);
}

#[test]
fn cyclomatic_estimate_exact() {
    // 1.0 + 1 control flow + 0.5 * 1 operator = 2.5
    let r = calculate_cyclomatic_complexity_estimate("if x and y:\n", Lang::Python);
    assert_eq!(r.num, 5);
    assert_eq!(r.den, 2);
}

#[test]
fn count_patterns_is_non_overlapping() {
    assert_eq!(count_patterns("aaaa", &["aa"]), 2);
    assert_eq!(count_patterns("aaa", &["aa"]), 1);
    assert_eq!(count_patterns("abcabc", &["abc", "b"]), 4);
}

#[test]
fn count_patterns_empty_pattern_counts_zero() {
    assert_eq!(count_patterns("abc", &[""]), 0);
}

#[test]
fn lua_nesting_uses_word_delimiters() {
    let code = "while x do\n y\nend\n";
    assert_eq!(calculate_max_nesting_depth(code, Lang::Lua), 1);
}

#[test]
fn nesting_with_multiple_custom_delimiters() {
    let code = "begin (\n begin\n) end\n";
    let d = calculate_max_nesting_depth_with_patterns(code, &["begin", "("], &[")", "end"]);
    assert_eq!(d, 3);
}

#[test]
fn nesting_never_goes_below_zero() {
    let code = "}}}\n{\n";
    assert_eq!(calculate_max_nesting_depth(code, Lang::Rust), 1);
}

#[test]
fn crlf_line_endings_split_cleanly() {
    let f = extract_complexity_features("a\r\n\r\nb\r\n", Lang::Other);
    assert_eq!(f.total_lines, 3);
    assert_eq!(f.non_empty_lines, 2);
}

#[test]
fn registry_tables_match_their_languages() {
    assert_eq!(get_function_patterns(Lang::Go), vec!["func "]);
    assert_eq!(get_function_patterns(Lang::Elixir), vec!["def ", "defp ", "defmacro "]);
    assert_eq!(
        get_control_flow_patterns(Lang::Erlang),
        vec!["case ", "if ", "receive "]
    );
    assert_eq!(get_operator_patterns(Lang::Lua), vec!["and", "or", "not"]);
    assert_eq!(get_comment_patterns(Lang::Erlang), vec!["%"]);
    assert_eq!(get_opening_patterns(Lang::Lua), "do");
    assert_eq!(get_closing_patterns(Lang::Lua), "end");
    assert_eq!(get_opening_patterns(Lang::Python), ":");
    assert_eq!(get_closing_patterns(Lang::Python), "");
}

#[test]
fn unknown_language_falls_back() {
    assert_eq!(get_function_patterns(Lang::Other), vec!["def ", "function ", "fn "]);
    assert_eq!(get_opening_patterns(Lang::Other), "{");
    assert_eq!(get_closing_patterns(Lang::Other), "}");
}
