//! Tests of the sub-scores, the combined score and the auxiliary
//! heuristics.  Scores are exact rationals, so expected values are checked
//! as fractions, or in `f64` after an exact division.

use code_complexity::{
    calculate_actor_complexity, calculate_cognitive_complexity,
    calculate_language_complexity_score, calculate_language_complexity_score_with_patterns,
    calculate_maintainability_complexity, calculate_pattern_effectiveness,
    calculate_structural_complexity, calculate_supervision_complexity,
    extract_complexity_features, ComplexityFeatures, Lang, Ratio,
};

fn zero_features() -> ComplexityFeatures {
    ComplexityFeatures {
        total_lines: 0,
        non_empty_lines: 0,
        function_count: 0,
        control_flow_count: 0,
        nesting_depth: 0,
        operator_count: 0,
        comment_ratio: Ratio { num: 0, den: 1 },
        identifier_length_avg: Ratio { num: 0, den: 1 },
        cyclomatic_complexity: Ratio { num: 2, den: 2 },
    }
}

#[test]
fn score_is_always_in_range() {
    let codes = [
        "",
        "fn main() { if x { y() } }\n",
        "def f():\n    if x:\n        return 1\n",
        "{{{{{{{{{{{{{{{{{{{{\n",
    ];
    let langs = [
        Lang::Elixir,
        Lang::Rust,
        Lang::Python,
        Lang::Javascript,
        Lang::Typescript,
        Lang::Java,
        Lang::Cpp,
        Lang::Go,
        Lang::Kotlin,
        Lang::Csharp,
        Lang::Erlang,
        Lang::Gleam,
        Lang::Lua,
        Lang::Other,
    ];
    for code in codes.iter() {
        for lang in langs.iter() {
            let r = calculate_language_complexity_score(code, *lang);
            assert!(r.den >= 1);
            assert!(r.num <= 10 * r.den);
            let v = r.num as f64 / r.den as f64;
            assert!((0.0..=10.0).contains(&v));
        }
    }
}

#[test]
fn combined_cap_never_binds() {
    // each sub-score is capped at five, so the blend stays at or below five
    let codes = ["", "{{{{{{\n", "def f():\n    if x and y or z:\n        pass\n"];
    for code in codes.iter() {
        let r = calculate_language_complexity_score(code, Lang::Python);
        assert!(r.num <= 5 * r.den);
    }
}

#[test]
fn score_is_idempotent() {
    let code = "def f():\n    if x:\n        return 1\n";
    let a = calculate_language_complexity_score(code, Lang::Python);
    let b = calculate_language_complexity_score(code, Lang::Python);
    assert_eq!(a, b);
    let va = a.num as f64 / a.den as f64;
    let vb = b.num as f64 / b.den as f64;
    assert!(va == vb);
}

#[test]
fn empty_input_scores_without_division_errors() {
    let r = calculate_language_complexity_score("", Lang::Other);
    // structural 0, cognitive 0.3, maintainability 4.0: blend is 0.92
    assert_eq!(r.num, 92);
    assert_eq!(r.den, 100);
}

#[test]
fn python_scenario_exact_score() {
    let code = "def f():\n    if x:\n        return 1\n";
    let r = calculate_language_complexity_score(code, Lang::Python);
    // structural 32/30, cognitive 108/40, maintainability 8/2,
    // blended over 100 * 3 non-empty lines
    assert_eq!(r.num, 692);
    assert_eq!(r.den, 300);
    let v = r.num as f64 / r.den as f64;
    assert!((v - 2.306666666666667).abs() < 1e-12);
}

#[test]
fn structural_score_exact() {
    let code = "def f():\n    if x:\n        return 1\n";
    let f = extract_complexity_features(code, Lang::Python);
    let s = calculate_structural_complexity(&f);
    // 2 * (1/3) + 2*2/10 + 1.5 * 0 = 32/30
    assert_eq!(s.num, 32);
    assert_eq!(s.den, 30);
}

#[test]
fn structural_score_caps_at_five() {
    let mut f = zero_features();
    f.non_empty_lines = 1;
    f.nesting_depth = 20;
    let s = calculate_structural_complexity(&f);
    assert_eq!(s.num, 50);
    assert_eq!(s.den, 10);
}

#[test]
fn cognitive_score_exact() {
    let code = "def f():\n    if x:\n        return 1\n";
    let f = extract_complexity_features(code, Lang::Python);
    let c = calculate_cognitive_complexity(&f);
    // 0.5 * 1 + 0.8 * 2 + 0.3 * 2.0 = 2.7 = 108/40
    assert_eq!(c.num, 108);
    assert_eq!(c.den, 40);
}

#[test]
fn cognitive_score_caps_at_five() {
    let mut f = zero_features();
    f.control_flow_count = 100;
    let c = calculate_cognitive_complexity(&f);
    assert_eq!(c.num, 200);
    assert_eq!(c.den, 40);
}

#[test]
fn maintainability_rewards_comments_and_long_identifiers() {
    let mut f = zero_features();
    // ratio 1/2 > 0.2 and average 9 > 8: factors 0.5 + 0.5 + 0.5
    f.comment_ratio = Ratio { num: 1, den: 2 };
    f.identifier_length_avg = Ratio { num: 9, den: 1 };
    let m = calculate_maintainability_complexity(&f);
    assert_eq!(m.num, 3);
    assert_eq!(m.den, 2);
}

#[test]
fn maintainability_length_boundary() {
    let mut at_boundary = zero_features();
    at_boundary.non_empty_lines = 100;
    let m100 = calculate_maintainability_complexity(&at_boundary);
    // exactly 100 non-empty lines still uses the 0.5 length factor:
    // 2.0 + 1.5 + 0.5 = 4.0
    assert_eq!(m100.num, 8);
    assert_eq!(m100.den, 2);

    let mut above = zero_features();
    above.non_empty_lines = 101;
    let m101 = calculate_maintainability_complexity(&above);
    // 101 flips the length factor to 1.5: 2.0 + 1.5 + 1.5 = 5.0
    assert_eq!(m101.num, 10);
    assert_eq!(m101.den, 2);
}

#[test]
fn maintainability_comment_boundary() {
    let mut f = zero_features();
    // exactly one fifth is not above the threshold
    f.comment_ratio = Ratio { num: 1, den: 5 };
    let m = calculate_maintainability_complexity(&f);
    assert_eq!(m.num, 8);
    f.comment_ratio = Ratio { num: 21, den: 100 };
    let m2 = calculate_maintainability_complexity(&f);
    assert_eq!(m2.num, 5);
}

#[test]
fn override_score_stays_in_range() {
    let code = "f = lambda x: x\n";
    let r = calculate_language_complexity_score_with_patterns(
        code,
        Lang::Python,
        &["lambda ".to_string()],
        &[],
        &[],
        &[":".to_string()],
        &[],
        &["#".to_string()],
    );
    assert!(r.den >= 1);
    assert!(r.num <= 10 * r.den);
}

#[test]
fn pattern_effectiveness_thresholds() {
    let low = zero_features();
    // 0.3 + 0.4 + 0.5 over 3
    let e = calculate_pattern_effectiveness("pipe", &low);
    assert_eq!(e.num, 12);
    assert_eq!(e.den, 30);

    let mut high = zero_features();
    high.cyclomatic_complexity = Ratio { num: 11, den: 2 };
    high.comment_ratio = Ratio { num: 1, den: 2 };
    high.identifier_length_avg = Ratio { num: 7, den: 1 };
    // 0.8 + 0.9 + 0.7 over 3
    let e2 = calculate_pattern_effectiveness("pipe", &high);
    assert_eq!(e2.num, 24);
    assert_eq!(e2.den, 30);
}

#[test]
fn supervision_complexity_empty_is_zero() {
    let r = calculate_supervision_complexity(&[]);
    assert_eq!(r.num, 0);
    assert_eq!(r.den, 1);
}

#[test]
fn actor_complexity_empty_is_zero() {
    let r = calculate_actor_complexity(&[]);
    assert_eq!(r.num, 0);
    assert_eq!(r.den, 1);
}

#[test]
fn supervision_complexity_weights() {
    let modules = vec![
        "MySupervisor".to_string(),
        "gen_server_worker".to_string(),
        "plain_module".to_string(),
    ];
    // 1 * 0.5 + 1 * 0.3 = 0.8
    let r = calculate_supervision_complexity(&modules);
    assert_eq!(r.num, 8);
    assert_eq!(r.den, 10);
}

#[test]
fn supervision_complexity_caps_at_ten() {
    let modules: Vec<String> = (0..30).map(|i| format!("Supervisor{}", i)).collect();
    let r = calculate_supervision_complexity(&modules);
    assert_eq!(r.num, 100);
    assert_eq!(r.den, 10);
}

#[test]
fn actor_complexity_weights() {
    let functions = vec![
        "spawn_link".to_string(),
        "send_msg".to_string(),
        "handle_call".to_string(),
    ];
    // 0.4 + 0.3 + 0.3 = 1.0
    let r = calculate_actor_complexity(&functions);
    assert_eq!(r.num, 10);
    assert_eq!(r.den, 10);
}

#[test]
fn actor_complexity_caps_at_ten() {
    let functions: Vec<String> = (0..40).map(|i| format!("spawn_{}", i)).collect();
    let r = calculate_actor_complexity(&functions);
    assert_eq!(r.num, 100);
    assert_eq!(r.den, 10);
}
