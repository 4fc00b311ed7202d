//! Laws that formatting obeys across calls.

use crate::error::FormatError;
use crate::options::{FormatOptions, DEFAULT_INDENT};
use crate::model::{format_outcome, formatted_bytes, formatted_text};
use vstd::prelude::*;
use vstd::utf8::decode_utf8_encode_utf8;

verus! {

/// Formatting is idempotent: with the idempotence check on, whenever
/// formatting `source` gives `text`, formatting `text` with the same options
/// gives `text` back.
pub proof fn lemma_format_idempotent(
    source: Seq<char>,
    text: Seq<char>,
    indent: Seq<char>,
    tolerate_parsing_errors: bool,
)
    requires
        formatted_text(source, indent, false, tolerate_parsing_errors) == Some(text),
    ensures
        formatted_text(text, indent, false, tolerate_parsing_errors) == Some(text),
{
    let bytes = formatted_bytes(source, indent, false, tolerate_parsing_errors)->Some_0;
    decode_utf8_encode_utf8(bytes);
}

/// The idempotence check never changes what is written: whenever formatting
/// with the check on succeeds, formatting without it gives the same text.
pub proof fn lemma_check_keeps_output(
    source: Seq<char>,
    text: Seq<char>,
    indent: Seq<char>,
    tolerate_parsing_errors: bool,
)
    requires
        formatted_text(source, indent, false, tolerate_parsing_errors) == Some(text),
    ensures
        formatted_text(source, indent, true, tolerate_parsing_errors) == Some(text),
{
}

/// Formatting is idempotent, stated over what the entry points return: when
/// formatting `source` (idempotence check on) returns `Ok(text)`, formatting
/// `text` with the same options returns `Ok` of the same text.
pub proof fn lemma_reformat_returns_same(
    source: Seq<char>,
    indent: Seq<char>,
    tolerate_parsing_errors: bool,
    first: Result<String, FormatError>,
    second: Result<String, FormatError>,
)
    requires
        format_outcome(source, indent, false, tolerate_parsing_errors, first),
        first is Ok,
        format_outcome(first->Ok_0@, indent, false, tolerate_parsing_errors, second),
    ensures
        second matches Ok(again) && again@ == first->Ok_0@,
{
    lemma_format_idempotent(source, first->Ok_0@, indent, tolerate_parsing_errors);
}

/// `format` agrees with `format_with` under the default options: given what
/// each returns for the same source, both succeed with the same text, or both
/// fail with the same kind of error.
pub proof fn lemma_format_agrees_with_defaults(
    source: Seq<char>,
    opts: FormatOptions,
    from_format: Result<String, FormatError>,
    from_format_with: Result<String, FormatError>,
)
    requires
        opts.is_default(),
        format_outcome(source, DEFAULT_INDENT@, false, false, from_format),
        format_outcome(
            source,
            opts.indent@,
            opts.skip_idempotence,
            opts.tolerate_parsing_errors,
            from_format_with,
        ),
    ensures
        from_format is Ok <==> from_format_with is Ok,
        from_format is Ok ==> from_format->Ok_0@ == from_format_with->Ok_0@,
        (from_format matches Err(FormatError::Language(_))) <==> (
        from_format_with matches Err(FormatError::Language(_))),
        (from_format matches Err(FormatError::Formatter(_))) <==> (
        from_format_with matches Err(FormatError::Formatter(_))),
        (from_format matches Err(FormatError::Utf8(_))) <==> (
        from_format_with matches Err(FormatError::Utf8(_))),
{
}

} // verus!
