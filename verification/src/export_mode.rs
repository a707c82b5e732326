//! How the generated byte array is exposed to the modules that import it.

use crate::error::CaberError;
use crate::text::{lowercase_of, same_text, to_lowercase};
use std::str::FromStr;
use vstd::prelude::*;

verus! {

/// The way the generated array leaves the generated module.
#[derive(Debug, Clone, Copy, PartialEq, Eq, Structural)]
pub enum ExportMode {
    /// The array is the module's default export.
    Default,
    /// The array is a named export of the module.
    Object,
    /// The array is declared and not exported.
    NoExport,
}

impl ExportMode {
    /// The keyword that selects this mode.
    pub open spec fn keyword(self) -> Seq<char> {
        match self {
            ExportMode::Default => "default"@,
            ExportMode::Object => "object"@,
            ExportMode::NoExport => "none"@,
        }
    }

    /// The mode that a keyword selects. Keywords are matched exactly, so
    /// only lowercase spellings are keywords.
    pub open spec fn of_keyword(keyword: Seq<char>) -> Result<ExportMode, CaberError> {
        if keyword == ExportMode::Default.keyword() {
            Ok(ExportMode::Default)
        } else if keyword == ExportMode::Object.keyword() {
            Ok(ExportMode::Object)
        } else if keyword == ExportMode::NoExport.keyword() {
            Ok(ExportMode::NoExport)
        } else {
            Err(CaberError::InvalidExportMode)
        }
    }

    /// The mode that a text selects: the one whose keyword is the lowercase
    /// form of the text.
    pub open spec fn of_text(text: Seq<char>) -> Result<ExportMode, CaberError> {
        ExportMode::of_keyword(lowercase_of(text))
    }

    /// Finds the mode that a keyword selects, and fails on any text that is
    /// not a keyword.
    pub fn from_keyword(keyword: &str) -> (mode: Result<ExportMode, CaberError>)
        ensures
            mode == ExportMode::of_keyword(keyword@),
    {
        if same_text(keyword, "default") {
            Ok(ExportMode::Default)
        } else if same_text(keyword, "object") {
            Ok(ExportMode::Object)
        } else if same_text(keyword, "none") {
            Ok(ExportMode::NoExport)
        } else {
            Err(CaberError::InvalidExportMode)
        }
    }

    /// Every mode is selected by its own keyword.
    pub proof fn lemma_keyword_selects(self)
        ensures
            ExportMode::of_keyword(self.keyword()) == Ok::<ExportMode, CaberError>(self),
    {
        reveal_strlit("default");
        reveal_strlit("object");
        reveal_strlit("none");
        assert("default"@.len() == 7 && "object"@.len() == 6 && "none"@.len() == 4);
    }

    /// A text selects a mode exactly when its lowercase form is a keyword,
    /// and the only failure is `InvalidExportMode`.
    pub proof fn lemma_of_text_cases(text: Seq<char>)
        ensures
            ExportMode::of_text(text) is Ok <==> exists|mode: ExportMode|
                lowercase_of(text) == #[trigger] mode.keyword(),
            ExportMode::of_text(text) is Err ==> ExportMode::of_text(text) == Err::<
                ExportMode,
                CaberError,
            >(CaberError::InvalidExportMode),
    {
        let lowered = lowercase_of(text);
        if ExportMode::of_text(text) is Ok {
            let mode = ExportMode::of_text(text)->Ok_0;
            assert(lowered == mode.keyword());
        }
        if exists|mode: ExportMode| lowered == #[trigger] mode.keyword() {
            let mode = choose|mode: ExportMode| lowered == #[trigger] mode.keyword();
            mode.lemma_keyword_selects();
        }
    }

    /// Selection ignores case: texts with the same lowercase form select
    /// the same mode, or fail alike.
    pub proof fn lemma_of_text_ignores_case(first: Seq<char>, second: Seq<char>)
        ensures
            lowercase_of(first) == lowercase_of(second) ==> ExportMode::of_text(first)
                == ExportMode::of_text(second),
    {
    }
}

impl Default for ExportMode {
    fn default() -> (mode: Self)
        ensures
            mode == ExportMode::Default,
    {
        ExportMode::Default
    }
}

impl FromStr for ExportMode {
    type Err = CaberError;

    /// Reads a mode from user-supplied text, ignoring case.
    fn from_str(s: &str) -> (mode: Result<Self, Self::Err>)
        ensures
            mode == ExportMode::of_text(s@),
    {
        let lowered = to_lowercase(s);
        ExportMode::from_keyword(lowered.as_str())
    }
}

/// The settings of one rendering.
#[derive(Debug, Clone, Copy, PartialEq, Eq, Structural)]
pub struct CaberConfig {
    pub export_mode: ExportMode,
}

impl Default for CaberConfig {
    fn default() -> (config: Self)
        ensures
            config == (CaberConfig { export_mode: ExportMode::Default }),
    {
        CaberConfig { export_mode: ExportMode::Default }
    }
}

} // verus!
