//! The pattern registry: per-language tables of literal substrings that
//! stand in for function declarations, control flow, operators, comments
//! and nesting delimiters.  Every language tag has a dedicated entry; the
//! [`Lang::Other`] entry doubles as the fallback set, so every lookup is
//! total.

use vstd::prelude::*;
use crate::lang::Lang;

verus! {

/// Function-declaration markers of a language.
pub open spec fn spec_function_patterns(language: Lang) -> Seq<Seq<char>> {
    match language {
        Lang::Elixir => seq!["def "@, "defp "@, "defmacro "@],
        Lang::Rust => seq!["fn "@, "async fn "@],
        Lang::Python => seq!["def "@, "async def "@],
        Lang::Javascript => seq!["function "@, "=> "@, "async function "@],
        Lang::Typescript => seq!["function "@, "=> "@, "async function "@],
        Lang::Java => seq!["public "@, "private "@, "protected "@],
        Lang::Cpp => seq!["void "@, "int "@, "bool "@, "string "@, "char "@, "float "@],
        Lang::Go => seq!["func "@],
        Lang::Kotlin => seq!["fun "@, "class "@, "object "@],
        Lang::Csharp => seq!["void "@, "public "@, "private "@, "async "@],
        Lang::Erlang => seq!["-spec "@, "when "@],
        Lang::Gleam => seq!["pub fn "@, "fn "@],
        Lang::Lua => seq!["function "@],
        Lang::Other => seq!["def "@, "function "@, "fn "@],
    }
}

/// Function-declaration markers; see [`spec_function_patterns`].
pub fn get_function_patterns(language: Lang) -> (r: Vec<&'static str>)
    ensures
        r.deep_view() == spec_function_patterns(language),
        r.deep_view().len() <= 7,
{
    let r: Vec<&'static str> = match language {
        Lang::Elixir => vec!["def ", "defp ", "defmacro "],
        Lang::Rust => vec!["fn ", "async fn "],
        Lang::Python => vec!["def ", "async def "],
        Lang::Javascript => vec!["function ", "=> ", "async function "],
        Lang::Typescript => vec!["function ", "=> ", "async function "],
        Lang::Java => vec!["public ", "private ", "protected "],
        Lang::Cpp => vec!["void ", "int ", "bool ", "string ", "char ", "float "],
        Lang::Go => vec!["func "],
        Lang::Kotlin => vec!["fun ", "class ", "object "],
        Lang::Csharp => vec!["void ", "public ", "private ", "async "],
        Lang::Erlang => vec!["-spec ", "when "],
        Lang::Gleam => vec!["pub fn ", "fn "],
        Lang::Lua => vec!["function "],
        Lang::Other => vec!["def ", "function ", "fn "],
    };
    proof {
        assert(r.deep_view() =~= spec_function_patterns(language));
    }
    r
}

/// Control-flow markers of a language.
pub open spec fn spec_control_flow_patterns(language: Lang) -> Seq<Seq<char>> {
    match language {
        Lang::Elixir => seq!["if "@, "unless "@, "case "@, "cond "@, "with "@, "for "@, "while "@],
        Lang::Rust => seq!["if "@, "match "@, "while "@, "for "@, "loop "@],
        Lang::Python => seq!["if "@, "elif "@, "else "@, "for "@, "while "@, "try "@],
        Lang::Javascript => seq!["if "@, "else "@, "for "@, "while "@, "switch "@, "try "@],
        Lang::Typescript => seq!["if "@, "else "@, "for "@, "while "@, "switch "@, "try "@],
        Lang::Java => seq!["if "@, "else "@, "for "@, "while "@, "switch "@, "try "@],
        Lang::Cpp => seq!["if "@, "else "@, "for "@, "while "@, "switch "@, "try "@],
        Lang::Go => seq!["if "@, "else "@, "for "@, "switch "@],
        Lang::Kotlin => seq!["if "@, "else "@, "for "@, "while "@, "when "@, "try "@],
        Lang::Csharp => seq!["if "@, "else "@, "for "@, "while "@, "switch "@, "try "@],
        Lang::Erlang => seq!["case "@, "if "@, "receive "@],
        Lang::Gleam => seq!["case "@, "if "@, "try "@],
        Lang::Lua => seq!["if "@, "elseif "@, "for "@, "while "@],
        Lang::Other => seq!["if "@, "else "@, "for "@, "while "@, "case "@],
    }
}

/// Control-flow markers; see [`spec_control_flow_patterns`].
pub fn get_control_flow_patterns(language: Lang) -> (r: Vec<&'static str>)
    ensures
        r.deep_view() == spec_control_flow_patterns(language),
        r.deep_view().len() <= 7,
{
    let r: Vec<&'static str> = match language {
        Lang::Elixir => vec!["if ", "unless ", "case ", "cond ", "with ", "for ", "while "],
        Lang::Rust => vec!["if ", "match ", "while ", "for ", "loop "],
        Lang::Python => vec!["if ", "elif ", "else ", "for ", "while ", "try "],
        Lang::Javascript => vec!["if ", "else ", "for ", "while ", "switch ", "try "],
        Lang::Typescript => vec!["if ", "else ", "for ", "while ", "switch ", "try "],
        Lang::Java => vec!["if ", "else ", "for ", "while ", "switch ", "try "],
        Lang::Cpp => vec!["if ", "else ", "for ", "while ", "switch ", "try "],
        Lang::Go => vec!["if ", "else ", "for ", "switch "],
        Lang::Kotlin => vec!["if ", "else ", "for ", "while ", "when ", "try "],
        Lang::Csharp => vec!["if ", "else ", "for ", "while ", "switch ", "try "],
        Lang::Erlang => vec!["case ", "if ", "receive "],
        Lang::Gleam => vec!["case ", "if ", "try "],
        Lang::Lua => vec!["if ", "elseif ", "for ", "while "],
        Lang::Other => vec!["if ", "else ", "for ", "while ", "case "],
    };
    proof {
        assert(r.deep_view() =~= spec_control_flow_patterns(language));
    }
    r
}

/// Logical and comparison operator markers of a language.
pub open spec fn spec_operator_patterns(language: Lang) -> Seq<Seq<char>> {
    match language {
        Lang::Elixir => seq!["&&"@, "||"@, "and"@, "or"@, "|>"@, "->"@, "=>"@],
        Lang::Rust => seq!["&&"@, "||"@, "&"@, "|"@, "->"@, "=>"@],
        Lang::Python => seq!["and"@, "or"@, "not"@, "in"@, "is"@],
        Lang::Javascript => seq!["&&"@, "||"@, "!"@, "==="@, "!=="@],
        Lang::Typescript => seq!["&&"@, "||"@, "!"@, "==="@, "!=="@],
        Lang::Java => seq!["&&"@, "||"@, "!"@, "=="@, "!="@],
        Lang::Cpp => seq!["&&"@, "||"@, "!"@, "=="@, "!="@],
        Lang::Go => seq!["&&"@, "||"@, "!"@, "=="@, "!="@],
        Lang::Kotlin => seq!["&&"@, "||"@, "!"@, "=="@, "!="@, "==="@, "!=="@],
        Lang::Csharp => seq!["&&"@, "||"@, "!"@, "=="@, "!="@, "??"@],
        Lang::Erlang => seq!["and"@, "or"@, "not"@, "andalso"@, "orelse"@],
        Lang::Gleam => seq!["&&"@, "||"@, "!"@, "=="@, "!="@],
        Lang::Lua => seq!["and"@, "or"@, "not"@],
        Lang::Other => seq!["&&"@, "||"@, "!"@, "=="@, "!="@],
    }
}

/// Operator markers; see [`spec_operator_patterns`].
pub fn get_operator_patterns(language: Lang) -> (r: Vec<&'static str>)
    ensures
        r.deep_view() == spec_operator_patterns(language),
        r.deep_view().len() <= 7,
{
    let r: Vec<&'static str> = match language {
        Lang::Elixir => vec!["&&", "||", "and", "or", "|>", "->", "=>"],
        Lang::Rust => vec!["&&", "||", "&", "|", "->", "=>"],
        Lang::Python => vec!["and", "or", "not", "in", "is"],
        Lang::Javascript => vec!["&&", "||", "!", "===", "!=="],
        Lang::Typescript => vec!["&&", "||", "!", "===", "!=="],
        Lang::Java => vec!["&&", "||", "!", "==", "!="],
        Lang::Cpp => vec!["&&", "||", "!", "==", "!="],
        Lang::Go => vec!["&&", "||", "!", "==", "!="],
        Lang::Kotlin => vec!["&&", "||", "!", "==", "!=", "===", "!=="],
        Lang::Csharp => vec!["&&", "||", "!", "==", "!=", "??"],
        Lang::Erlang => vec!["and", "or", "not", "andalso", "orelse"],
        Lang::Gleam => vec!["&&", "||", "!", "==", "!="],
        Lang::Lua => vec!["and", "or", "not"],
        Lang::Other => vec!["&&", "||", "!", "==", "!="],
    };
    proof {
        assert(r.deep_view() =~= spec_operator_patterns(language));
    }
    r
}

/// Comment-line prefixes of a language.
pub open spec fn spec_comment_patterns(language: Lang) -> Seq<Seq<char>> {
    match language {
        Lang::Elixir => seq!["#"@],
        Lang::Rust => seq!["//"@, "/*"@],
        Lang::Python => seq!["#"@],
        Lang::Javascript => seq!["//"@, "/*"@],
        Lang::Typescript => seq!["//"@, "/*"@],
        Lang::Java => seq!["//"@, "/*"@],
        Lang::Cpp => seq!["//"@, "/*"@],
        Lang::Go => seq!["//"@, "/*"@],
        Lang::Kotlin => seq!["//"@, "/*"@],
        Lang::Csharp => seq!["//"@, "/*"@],
        Lang::Erlang => seq!["%"@],
        Lang::Gleam => seq!["//"@],
        Lang::Lua => seq!["--"@],
        Lang::Other => seq!["//"@, "#"@],
    }
}

/// Comment-line prefixes; see [`spec_comment_patterns`].
pub fn get_comment_patterns(language: Lang) -> (r: Vec<&'static str>)
    ensures
        r.deep_view() == spec_comment_patterns(language),
        r.deep_view().len() <= 7,
{
    let r: Vec<&'static str> = match language {
        Lang::Elixir => vec!["#"],
        Lang::Rust => vec!["//", "/*"],
        Lang::Python => vec!["#"],
        Lang::Javascript => vec!["//", "/*"],
        Lang::Typescript => vec!["//", "/*"],
        Lang::Java => vec!["//", "/*"],
        Lang::Cpp => vec!["//", "/*"],
        Lang::Go => vec!["//", "/*"],
        Lang::Kotlin => vec!["//", "/*"],
        Lang::Csharp => vec!["//", "/*"],
        Lang::Erlang => vec!["%"],
        Lang::Gleam => vec!["//"],
        Lang::Lua => vec!["--"],
        Lang::Other => vec!["//", "#"],
    };
    proof {
        assert(r.deep_view() =~= spec_comment_patterns(language));
    }
    r
}

/// The single opening nesting delimiter of a language.  For Python the
/// block opener is the colon.
pub open spec fn spec_opening_pattern(language: Lang) -> Seq<char> {
    match language {
        Lang::Elixir => "{"@,
        Lang::Rust => "{"@,
        Lang::Python => ":"@,
        Lang::Javascript => "{"@,
        Lang::Typescript => "{"@,
        Lang::Java => "{"@,
        Lang::Cpp => "{"@,
        Lang::Go => "{"@,
        Lang::Kotlin => "{"@,
        Lang::Csharp => "{"@,
        Lang::Erlang => "("@,
        Lang::Gleam => "{"@,
        Lang::Lua => "do"@,
        Lang::Other => "{"@,
    }
}

/// Opening nesting delimiter; see [`spec_opening_pattern`].
pub fn get_opening_patterns(language: Lang) -> (r: &'static str)
    ensures
        r@ == spec_opening_pattern(language),
{
    match language {
        Lang::Elixir => "{",
        Lang::Rust => "{",
        Lang::Python => ":",
        Lang::Javascript => "{",
        Lang::Typescript => "{",
        Lang::Java => "{",
        Lang::Cpp => "{",
        Lang::Go => "{",
        Lang::Kotlin => "{",
        Lang::Csharp => "{",
        Lang::Erlang => "(",
        Lang::Gleam => "{",
        Lang::Lua => "do",
        Lang::Other => "{",
    }
}

/// The single closing nesting delimiter of a language.  Python has none:
/// its closing token is empty, so its tracked depth never decreases — a
/// deliberate limitation of the block heuristic.
pub open spec fn spec_closing_pattern(language: Lang) -> Seq<char> {
    match language {
        Lang::Elixir => "}"@,
        Lang::Rust => "}"@,
        Lang::Python => ""@,
        Lang::Javascript => "}"@,
        Lang::Typescript => "}"@,
        Lang::Java => "}"@,
        Lang::Cpp => "}"@,
        Lang::Go => "}"@,
        Lang::Kotlin => "}"@,
        Lang::Csharp => "}"@,
        Lang::Erlang => ")"@,
        Lang::Gleam => "}"@,
        Lang::Lua => "end"@,
        Lang::Other => "}"@,
    }
}

/// Closing nesting delimiter; see [`spec_closing_pattern`].
pub fn get_closing_patterns(language: Lang) -> (r: &'static str)
    ensures
        r@ == spec_closing_pattern(language),
{
    match language {
        Lang::Elixir => "}",
        Lang::Rust => "}",
        Lang::Python => "",
        Lang::Javascript => "}",
        Lang::Typescript => "}",
        Lang::Java => "}",
        Lang::Cpp => "}",
        Lang::Go => "}",
        Lang::Kotlin => "}",
        Lang::Csharp => "}",
        Lang::Erlang => ")",
        Lang::Gleam => "}",
        Lang::Lua => "end",
        Lang::Other => "}",
    }
}

} // verus!
