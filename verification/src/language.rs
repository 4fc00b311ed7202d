//! Building the Kotlin language definition that Topiary formats with.

use crate::error::FormatError;
use crate::outside::{
    assemble_language, compile_query, kotlin_grammar, kotlin_query_accepted, KotlinLanguage,
};
use crate::query::KOTLIN_QUERY;
use vstd::prelude::*;

verus! {

/// Build the Topiary language definition for Kotlin with the given
/// indentation, compiling [`KOTLIN_QUERY`] against the Kotlin grammar.
/// Fails with [`FormatError::Language`] exactly when the query is refused;
/// the outcome does not depend on the indentation.
pub fn build_language(indent: String) -> (res: Result<KotlinLanguage, FormatError>)
    ensures
        res is Ok <==> kotlin_query_accepted(KOTLIN_QUERY@),
        res is Err ==> res matches Err(FormatError::Language(_)),
        res matches Ok(language) ==> {
            &&& language.name_text() == "kotlin"@
            &&& language.query_text() == KOTLIN_QUERY@
            &&& language.indent_text() == indent@
        },
{
    let grammar = kotlin_grammar();
    let query = match compile_query(&grammar, KOTLIN_QUERY) {
        Ok(query) => query,
        Err(message) => return Err(FormatError::Language(message)),
    };
    Ok(assemble_language("kotlin".to_owned(), grammar, query, indent))
}

} // verus!
