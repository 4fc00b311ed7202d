//! Kotlin source formatter built on the Topiary formatting engine.
//!
//! The entry points are [`format`] and [`format_with`]. They parse Kotlin
//! source with the `tree-sitter-kotlin-ng` grammar, apply the formatting rules
//! of [`KOTLIN_QUERY`] with Topiary, and return the formatted text.

pub mod error;
pub mod language;
pub mod laws;
pub mod model;
pub mod options;
pub mod outside;
pub mod query;

pub use error::FormatError;
pub use language::build_language;
pub use outside::KotlinLanguage;
pub use options::{FormatOptions, DEFAULT_INDENT};
pub use query::KOTLIN_QUERY;

use model::format_outcome;
use outside::{run_formatter, string_from_utf8};
use vstd::prelude::*;
use vstd::utf8::{decode_utf8, valid_utf8};

verus! {

/// Format Kotlin source with caller-supplied options.
pub fn format_with(source: &str, opts: &FormatOptions) -> (res: Result<String, FormatError>)
    ensures
        format_outcome(
            source@,
            opts.indent@,
            opts.skip_idempotence,
            opts.tolerate_parsing_errors,
            res,
        ),
{
    let language = build_language(opts.indent.clone())?;
    let output = run_formatter(
        source,
        &language,
        opts.skip_idempotence,
        opts.tolerate_parsing_errors,
    );
    output_to_text(output)
}

/// Turn what the formatter returned into the result of a formatting call:
/// written bytes become the text they encode, or [`FormatError::Utf8`] when
/// they are not valid UTF-8; a formatter error message becomes
/// [`FormatError::Formatter`] with that message.
pub fn output_to_text(output: Result<Vec<u8>, String>) -> (res: Result<String, FormatError>)
    ensures
        match output {
            Ok(bytes) => if valid_utf8(bytes@) {
                res matches Ok(text) && text@ == decode_utf8(bytes@)
            } else {
                res matches Err(FormatError::Utf8(_))
            },
            Err(message) => res matches Err(FormatError::Formatter(m)) && m@ == message@,
        },
{
    match output {
        Ok(bytes) => match string_from_utf8(bytes) {
            Ok(text) => Ok(text),
            Err(error) => Err(FormatError::from(error)),
        },
        Err(message) => Err(FormatError::Formatter(message)),
    }
}

/// Format the given Kotlin source using the default options.
pub fn format(source: &str) -> (res: Result<String, FormatError>)
    ensures
        format_outcome(source@, DEFAULT_INDENT@, false, false, res),
{
    format_with(source, &FormatOptions::default())
}

} // verus!
