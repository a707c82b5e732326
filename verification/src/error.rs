//! Errors raised while interpreting user-supplied selector text.

use vstd::prelude::*;
use vstd::string::StringExecFns;

verus! {

/// A selector given by the user names no known value.
#[derive(Debug, Clone, Copy, PartialEq, Eq, Structural)]
pub enum CaberError {
    /// The export mode is none of `default`, `object`, `none`.
    InvalidExportMode,
    /// The output language is none of the accepted names.
    UnrecognizedLanguage,
}

impl CaberError {
    /// The text shown to the user for this error.
    pub open spec fn message_text(self) -> Seq<char> {
        match self {
            CaberError::InvalidExportMode =>
                "invalid export mode provided. Expected default, object, or none"@,
            CaberError::UnrecognizedLanguage =>
                "unrecognized output language requested. Expected JavaScript / ECMAScript or TypeScript"@,
        }
    }

    /// Renders the fixed, human-readable message of this error.
    pub fn message(&self) -> (text: String)
        ensures
            text@ == self.message_text(),
    {
        match self {
            CaberError::InvalidExportMode => String::from_str(
                "invalid export mode provided. Expected default, object, or none",
            ),
            CaberError::UnrecognizedLanguage => String::from_str(
                "unrecognized output language requested. Expected JavaScript / ECMAScript or TypeScript",
            ),
        }
    }
}

} // verus!
