//! The closed set of source languages the scorer knows about.

use vstd::prelude::*;

verus! {

/// A source language tag, used purely as a key into the pattern registry.
///
/// Every tag maps to a dedicated pattern set; [`Lang::Other`] is the
/// fallback for anything outside the enumeration.
#[derive(Clone, Copy, Debug, PartialEq, Eq, Structural)]
pub enum Lang {
    Elixir,
    Rust,
    Python,
    Javascript,
    Typescript,
    Java,
    Cpp,
    Go,
    Kotlin,
    Csharp,
    Erlang,
    Gleam,
    Lua,
    Other,
}

} // verus!
