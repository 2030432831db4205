//! Language-aware code complexity scoring.
//!
//! Given a snippet of source code and a declared language, this library
//! derives a fixed set of structural measurements (line counts, pattern
//! occurrence counts, nesting depth, comment ratio, identifier length,
//! a cyclomatic estimate) and combines three weighted sub-scores into one
//! bounded complexity score.
//!
//! Every score is an exact rational number ([`Ratio`]): the scoring rules
//! only ever divide by integer counts and weigh by constants that are
//! multiples of one twentieth, so no rounding is needed anywhere and every
//! contract pins the result exactly.

pub mod features;
pub mod heuristics;
pub mod lang;
pub mod lines;
pub mod patterns;
pub mod ratio;
pub mod score;
pub mod text;
pub mod tokens;

pub use features::{
    calculate_avg_identifier_length, calculate_comment_ratio,
    calculate_comment_ratio_with_patterns, calculate_cyclomatic_complexity_estimate,
    calculate_max_nesting_depth, calculate_max_nesting_depth_with_patterns, count_patterns,
    extract_complexity_features, extract_complexity_features_with_patterns, ComplexityFeatures,
};
pub use heuristics::{
    calculate_actor_complexity, calculate_pattern_effectiveness, calculate_supervision_complexity,
};
pub use lang::Lang;
pub use patterns::{
    get_closing_patterns, get_comment_patterns, get_control_flow_patterns, get_function_patterns,
    get_opening_patterns, get_operator_patterns,
};
pub use ratio::Ratio;
pub use score::{
    calculate_cognitive_complexity, calculate_language_complexity_score,
    calculate_language_complexity_score_with_patterns, calculate_maintainability_complexity,
    calculate_structural_complexity,
};
