//! The library's boundary with Topiary, the Kotlin grammar and std: the outside
//! types it carries, the names it gives to what outside calls return, and the
//! wrappers that make those calls. Every contract here is trusted, not proved.

use std::string::FromUtf8Error;
use vstd::prelude::*;
use vstd::utf8::{decode_utf8, encode_utf8, valid_utf8};

verus! {

#[verifier::external_type_specification]
#[verifier::external_body]
pub struct ExFromUtf8Error(FromUtf8Error);

#[verifier::external_type_specification]
#[verifier::external_body]
pub struct ExTopiaryLanguage(topiary_core::Language);

#[verifier::external_type_specification]
#[verifier::external_body]
pub struct ExTopiaryQuery(topiary_core::TopiaryQuery);

#[verifier::external_type_specification]
#[verifier::external_body]
pub struct ExGrammar(topiary_tree_sitter_facade::Language);

/// Whether Topiary accepts `query` as a formatting query for the Kotlin
/// grammar of `tree-sitter-kotlin-ng` (tree-sitter compiles it without error).
pub uninterp spec fn kotlin_query_accepted(query: Seq<char>) -> bool;

/// What one formatting pass of Topiary writes when it succeeds, or `None` when
/// it fails: `query` is the formatting query (on the Kotlin grammar), `indent`
/// the indentation string, `input` the UTF-8 bytes of the source, and the two
/// flags those of `Operation::Format`.
pub uninterp spec fn formatted_output(
    query: Seq<char>,
    indent: Seq<char>,
    input: Seq<u8>,
    skip_idempotence: bool,
    tolerate_parsing_errors: bool,
) -> Option<Seq<u8>>;

/// What Topiary returns with its idempotence check switched on, in terms of
/// passes without it: the first pass must succeed, and a second pass over its
/// output must give that output back unchanged.
pub open spec fn checked_output(
    query: Seq<char>,
    indent: Seq<char>,
    input: Seq<u8>,
    tolerate_parsing_errors: bool,
) -> Option<Seq<u8>> {
    match formatted_output(query, indent, input, true, tolerate_parsing_errors) {
        Some(out) => if formatted_output(query, indent, out, true, tolerate_parsing_errors) == Some(
            out,
        ) {
            Some(out)
        } else {
            None
        },
        None => None,
    }
}

/// The `tree-sitter-kotlin-ng` grammar, as Topiary's tree-sitter facade holds it.
/// Only [`kotlin_grammar`] makes one, so a value of this type is that grammar.
pub struct KotlinGrammar {
    grammar: topiary_tree_sitter_facade::Language,
}

/// Calls `topiary_tree_sitter_facade::Language::from` on
/// `tree_sitter_kotlin_ng::LANGUAGE`. Nothing is stated of the grammar: it is
/// only carried to [`compile_query`] and [`assemble_language`].
#[verifier::external_body]
pub(crate) fn kotlin_grammar() -> (grammar: KotlinGrammar) {
    KotlinGrammar { grammar: topiary_tree_sitter_facade::Language::from(tree_sitter_kotlin_ng::LANGUAGE) }
}

/// A formatting query compiled by Topiary against the Kotlin grammar, with
/// the source text it was compiled from. Only [`compile_query`] makes one, and
/// it records exactly the text that it compiled.
pub struct CompiledQuery {
    query: topiary_core::TopiaryQuery,
    source: String,
}

impl CompiledQuery {
    /// The source text this query was compiled from.
    pub closed spec fn source_text(&self) -> Seq<char> {
        self.source@
    }
}

/// Calls `topiary_core::TopiaryQuery::new` on the Kotlin grammar and `source`,
/// turning an error report into its text, and keeps a copy of `source` beside
/// the compiled query. Claims that the call succeeds exactly when
/// [`kotlin_query_accepted`] holds of `source`, and that the recorded text is
/// `source`. What the error text says is left unstated: it is rendered by the
/// error-report hooks of the process.
#[verifier::external_body]
pub(crate) fn compile_query(grammar: &KotlinGrammar, source: &str) -> (res: Result<
    CompiledQuery,
    String,
>)
    ensures
        res is Ok <==> kotlin_query_accepted(source@),
        res matches Ok(query) ==> query.source_text() == source@,
{
    match topiary_core::TopiaryQuery::new(&grammar.grammar, source) {
        Ok(query) => Ok(CompiledQuery { query, source: source.to_owned() }),
        Err(report) => Err(report.to_string()),
    }
}

/// A Topiary language definition for Kotlin: the `tree-sitter-kotlin-ng`
/// grammar, a compiled formatting query and an indentation string, together
/// with copies of the name, query source and indentation it was built with.
/// Only [`assemble_language`] makes one, from the same values it records.
#[derive(Debug)]
pub struct KotlinLanguage {
    name: String,
    query_source: String,
    indent: String,
    language: topiary_core::Language,
}

impl KotlinLanguage {
    /// The name the definition carries.
    pub closed spec fn name_text(&self) -> Seq<char> {
        self.name@
    }

    /// The source text of the formatting query compiled into this definition.
    pub closed spec fn query_text(&self) -> Seq<char> {
        self.query_source@
    }

    /// The indentation string of this definition.
    pub closed spec fn indent_text(&self) -> Seq<char> {
        self.indent@
    }
}

/// Builds the `topiary_core::Language` with the given name from the grammar,
/// the compiled query and `Some(indent)`, with no injection query, and keeps
/// copies of the name, the query's source text and `indent` beside it.
/// Claims that the recorded name is `name`, the recorded query text is the
/// query's and the recorded indentation is `indent`: the values the Topiary
/// definition was built from.
#[verifier::external_body]
pub(crate) fn assemble_language(
    name: String,
    grammar: KotlinGrammar,
    query: CompiledQuery,
    indent: String,
) -> (language: KotlinLanguage)
    ensures
        language.name_text() == name@,
        language.query_text() == query.source_text(),
        language.indent_text() == indent@,
{
    let language = topiary_core::Language {
        name: name.clone(),
        formatting_query: query.query,
        injection_query: None,
        grammar: grammar.grammar,
        indent: Some(indent.clone()),
    };
    KotlinLanguage { name, query_source: query.source, indent, language }
}

/// What a run with `tolerate_parsing_errors` off gives, with the idempotence
/// check as `skip_idempotence` says.
pub open spec fn strict_output(
    query: Seq<char>,
    indent: Seq<char>,
    input: Seq<u8>,
    skip_idempotence: bool,
) -> Option<Seq<u8>> {
    if skip_idempotence {
        formatted_output(query, indent, input, true, false)
    } else {
        checked_output(query, indent, input, false)
    }
}

/// The outcome of a formatter call as an option: the bytes written, or `None`.
pub open spec fn output_bytes(res: Result<Vec<u8>, String>) -> Option<Seq<u8>> {
    match res {
        Ok(out) => Some(out@),
        Err(_) => None,
    }
}

/// Calls `topiary_core::formatter` on the UTF-8 bytes of `input`, writing into
/// a `Vec<u8>`, with `language` and `Operation::Format` with the two flags, no
/// skipped stage and no injection resolver; an error report becomes its text.
///
/// Claimed of it, as Topiary's source shows:
/// - the outcome is the named [`formatted_output`] of the query source, the
///   indentation, the input bytes and the two flags;
/// - with the idempotence check on, the outcome is Ok exactly when a pass
///   without the check succeeds and a second such pass over its output gives
///   that output back, and the output is the first pass's (Topiary formats,
///   then reformats its own result and compares);
/// - tolerating parse errors only switches off the refusal of trees with
///   error nodes: whenever the same run without tolerance succeeds, the
///   tolerant run gives the same output;
/// - what it writes on success is valid UTF-8 and ends in a line break
///   (Topiary writes a `String` that it built as the trimmed rendering
///   followed by `"\n"`).
/// The text of an error is left unstated: the error-report hooks of the
/// process render it.
#[verifier::external_body]
pub(crate) fn run_formatter(
    input: &str,
    language: &KotlinLanguage,
    skip_idempotence: bool,
    tolerate_parsing_errors: bool,
) -> (res: Result<Vec<u8>, String>)
    ensures
        output_bytes(res) == formatted_output(
            language.query_text(),
            language.indent_text(),
            encode_utf8(input@),
            skip_idempotence,
            tolerate_parsing_errors,
        ),
        !skip_idempotence ==> output_bytes(res) == checked_output(
            language.query_text(),
            language.indent_text(),
            encode_utf8(input@),
            tolerate_parsing_errors,
        ),
        tolerate_parsing_errors && strict_output(
            language.query_text(),
            language.indent_text(),
            encode_utf8(input@),
            skip_idempotence,
        ) is Some ==> output_bytes(res) == strict_output(
            language.query_text(),
            language.indent_text(),
            encode_utf8(input@),
            skip_idempotence,
        ),
        res matches Ok(out) ==> valid_utf8(out@) && decode_utf8(out@).len() > 0 && decode_utf8(
            out@,
        ).last() == '\n',
{
    let mut reader = std::io::Cursor::new(input.as_bytes());
    let mut output: Vec<u8> = Vec::with_capacity(input.len());
    let operation = topiary_core::Operation::Format {
        skip_idempotence,
        tolerate_parsing_errors,
        skip_stage: None,
    };
    match topiary_core::formatter(&mut reader, &mut output, &language.language, operation, None) {
        Ok(()) => Ok(output),
        Err(report) => Err(report.to_string()),
    }
}

/// Calls `String::from_utf8`. As std documents it, the result is `Ok` exactly
/// when the bytes are valid UTF-8, and then holds the characters they encode.
#[verifier::external_body]
pub(crate) fn string_from_utf8(bytes: Vec<u8>) -> (res: Result<String, FromUtf8Error>)
    ensures
        res is Ok <==> valid_utf8(bytes@),
        res matches Ok(s) ==> s@ == decode_utf8(bytes@),
{
    String::from_utf8(bytes)
}

} // verus!
