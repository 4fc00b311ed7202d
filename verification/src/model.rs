//! What formatting Kotlin source computes, stated over the outside names.

use crate::error::FormatError;
use crate::outside::{checked_output, formatted_output, kotlin_query_accepted};
use crate::query::KOTLIN_QUERY;
use vstd::prelude::*;
use vstd::utf8::{decode_utf8, encode_utf8, valid_utf8};

verus! {

/// The bytes that formatting `source` produces with the given indentation and
/// flags, or `None` when Topiary refuses it: one pass of [`KOTLIN_QUERY`] over
/// the UTF-8 bytes of `source`, which with the idempotence check on must also
/// be a fixed point of a second pass.
pub open spec fn formatted_bytes(
    source: Seq<char>,
    indent: Seq<char>,
    skip_idempotence: bool,
    tolerate_parsing_errors: bool,
) -> Option<Seq<u8>> {
    if skip_idempotence {
        formatted_output(KOTLIN_QUERY@, indent, encode_utf8(source), true, tolerate_parsing_errors)
    } else {
        checked_output(KOTLIN_QUERY@, indent, encode_utf8(source), tolerate_parsing_errors)
    }
}

/// The text that formatting `source` with the given indentation and flags
/// gives, or `None` when it fails: the query must compile, Topiary must
/// format, and its output must be valid UTF-8.
pub open spec fn formatted_text(
    source: Seq<char>,
    indent: Seq<char>,
    skip_idempotence: bool,
    tolerate_parsing_errors: bool,
) -> Option<Seq<char>> {
    if !kotlin_query_accepted(KOTLIN_QUERY@) {
        None
    } else {
        match formatted_bytes(source, indent, skip_idempotence, tolerate_parsing_errors) {
            Some(bytes) => if valid_utf8(bytes) {
                Some(decode_utf8(bytes))
            } else {
                None
            },
            None => None,
        }
    }
}

/// What formatting `source` with the given indentation and flags returns: the text of
/// [`formatted_text`] on success; [`FormatError::Language`] exactly when the
/// query does not compile; otherwise [`FormatError::Formatter`] exactly when
/// Topiary refuses the input. A successful output is never empty and ends in a
/// line break. Tolerating parse errors changes nothing where the input
/// formats without that tolerance.
pub open spec fn format_outcome(
    source: Seq<char>,
    indent: Seq<char>,
    skip_idempotence: bool,
    tolerate_parsing_errors: bool,
    res: Result<String, FormatError>,
) -> bool {
    let text = formatted_text(source, indent, skip_idempotence, tolerate_parsing_errors);
    &&& res is Ok <==> text is Some
    &&& res matches Ok(s) ==> text == Some(s@) && s@.len() > 0 && s@.last() == '\n'
    &&& (res matches Err(FormatError::Language(_))) <==> !kotlin_query_accepted(KOTLIN_QUERY@)
    &&& (res matches Err(FormatError::Formatter(_))) <==> (kotlin_query_accepted(KOTLIN_QUERY@)
        && formatted_bytes(source, indent, skip_idempotence, tolerate_parsing_errors) is None)
    &&& !(res matches Err(FormatError::Utf8(_)))
    &&& tolerate_parsing_errors && formatted_text(source, indent, skip_idempotence, false) is Some
        ==> text == formatted_text(source, indent, skip_idempotence, false)
}

} // verus!
