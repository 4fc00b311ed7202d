//! Options that control a formatting run.

use vstd::prelude::*;

verus! {

/// The indentation used when the caller does not choose one: four spaces.
pub const DEFAULT_INDENT: &'static str = "    ";

/// Formatting options.
#[derive(Debug, Clone)]
pub struct FormatOptions {
    /// Indentation string. Defaults to four spaces.
    pub indent: String,
    /// If `true`, Topiary skips its built-in idempotence check (format twice,
    /// compare). The default (`false`) enables the check, which catches query
    /// regressions but adds one extra parse+format pass per call.
    pub skip_idempotence: bool,
    /// If `true`, Topiary continues through parse errors by treating the
    /// erroring node as a leaf. Useful for partial / editor-buffer input.
    pub tolerate_parsing_errors: bool,
}

impl FormatOptions {
    /// The options that [`FormatOptions::default`] produces: four-space
    /// indentation, idempotence check on, parse errors not tolerated.
    pub open spec fn is_default(&self) -> bool {
        &&& self.indent@ == DEFAULT_INDENT@
        &&& !self.skip_idempotence
        &&& !self.tolerate_parsing_errors
    }
}

impl Default for FormatOptions {
    fn default() -> (res: Self)
        ensures
            res.is_default(),
    {
        FormatOptions {
            indent: DEFAULT_INDENT.to_owned(),
            skip_idempotence: false,
            tolerate_parsing_errors: false,
        }
    }
}

} // verus!
