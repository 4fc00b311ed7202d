//! The errors that formatting can end in.

use std::string::FromUtf8Error;
use vstd::prelude::*;
use vstd::string::{to_string_from_display_ensures, StringExecFns};

verus! {

/// Errors returned by [`crate::format`] and [`crate::format_with`].
#[derive(Debug)]
pub enum FormatError {
    /// The formatting query could not be compiled against the Kotlin grammar.
    Language(String),
    /// Topiary refused to format the input (a parse error, or output that is
    /// not stable under a second formatting pass).
    Formatter(String),
    /// The formatted output was not valid UTF-8.
    Utf8(FromUtf8Error),
}

impl From<FromUtf8Error> for FormatError {
    fn from(error: FromUtf8Error) -> (res: Self) {
        FormatError::Utf8(error)
    }
}

impl vstd::std_specs::convert::FromSpecImpl<FromUtf8Error> for FormatError {
    open spec fn obeys_from_spec() -> bool {
        true
    }

    open spec fn from_spec(error: FromUtf8Error) -> Self {
        FormatError::Utf8(error)
    }
}

impl FormatError {
    /// The human-readable description of the error: a prefix naming its kind,
    /// followed by the underlying message (for [`FormatError::Utf8`], the
    /// display text of the UTF-8 error).
    pub fn message(&self) -> (text: String)
        ensures
            self matches FormatError::Language(m) ==> text@
                == "failed to build Kotlin language definition: "@ + m@,
            self matches FormatError::Formatter(m) ==> text@ == "formatting failed: "@ + m@,
            self matches FormatError::Utf8(e) ==> exists|detail: String|
                #![trigger to_string_from_display_ensures::<FromUtf8Error>(&e, detail)]
                to_string_from_display_ensures::<FromUtf8Error>(&e, detail) && text@
                    == "formatted output was not valid UTF-8: "@ + detail@,
    {
        match self {
            FormatError::Language(m) => {
                let mut text = "failed to build Kotlin language definition: ".to_owned();
                text.append(m.as_str());
                text
            },
            FormatError::Formatter(m) => {
                let mut text = "formatting failed: ".to_owned();
                text.append(m.as_str());
                text
            },
            FormatError::Utf8(e) => {
                let detail = e.to_string();
                let mut text = "formatted output was not valid UTF-8: ".to_owned();
                text.append(detail.as_str());
                text
            },
        }
    }
}

} // verus!
