//! The language whose surface syntax the generated module is written in.

use crate::binary::Binary;
use crate::error::CaberError;
use crate::export_mode::ExportMode;
use crate::template::module_text;
use crate::text::{lowercase_of, same_text, to_lowercase};
use std::str::FromStr;
use vstd::prelude::*;

verus! {

/// A language that a module can be generated in.
#[derive(Debug, Clone, Copy, PartialEq, Eq, Structural)]
pub enum OutputLanguage {
    /// ECMAScript, also known as JavaScript.
    EcmaScript,
    /// TypeScript.
    TypeScript,
}

impl OutputLanguage {
    /// Tells whether a keyword is one of the names of this language.
    pub open spec fn is_named(self, keyword: Seq<char>) -> bool {
        match self {
            OutputLanguage::EcmaScript => keyword == "ecmascript"@ || keyword == "javascript"@
                || keyword == "js"@,
            OutputLanguage::TypeScript => keyword == "typescript"@ || keyword == "ts"@,
        }
    }

    /// The language that a keyword names. Keywords are matched exactly, so
    /// only lowercase spellings are keywords.
    pub open spec fn of_keyword(keyword: Seq<char>) -> Result<OutputLanguage, CaberError> {
        if OutputLanguage::EcmaScript.is_named(keyword) {
            Ok(OutputLanguage::EcmaScript)
        } else if OutputLanguage::TypeScript.is_named(keyword) {
            Ok(OutputLanguage::TypeScript)
        } else {
            Err(CaberError::UnrecognizedLanguage)
        }
    }

    /// The language that a text names: the one that the lowercase form of
    /// the text is a keyword of.
    pub open spec fn of_text(text: Seq<char>) -> Result<OutputLanguage, CaberError> {
        OutputLanguage::of_keyword(lowercase_of(text))
    }

    /// The module that this language generates for a byte sequence under an
    /// export mode. Each language names its own text.
    pub open spec fn text_of(self, bytes: Seq<u8>, mode: ExportMode) -> Seq<char> {
        match self {
            OutputLanguage::EcmaScript => module_text(bytes, mode),
            OutputLanguage::TypeScript => module_text(bytes, mode),
        }
    }

    /// Finds the language that a keyword names, and fails on any text that
    /// is not a keyword.
    pub fn from_keyword(keyword: &str) -> (language: Result<OutputLanguage, CaberError>)
        ensures
            language == OutputLanguage::of_keyword(keyword@),
    {
        if same_text(keyword, "ecmascript") || same_text(keyword, "javascript") || same_text(
            keyword,
            "js",
        ) {
            Ok(OutputLanguage::EcmaScript)
        } else if same_text(keyword, "typescript") || same_text(keyword, "ts") {
            Ok(OutputLanguage::TypeScript)
        } else {
            Err(CaberError::UnrecognizedLanguage)
        }
    }

    /// Renders `binary` in this language. Each language has a rendering of
    /// its own to go through; today the two read the same.
    pub fn render(self, binary: &Binary<'_>) -> (text: String)
        ensures
            text@ == self.text_of(binary@.bytes, binary@.config.export_mode),
    {
        match self {
            OutputLanguage::EcmaScript => binary.to_ecmascript(),
            OutputLanguage::TypeScript => binary.to_typescript(),
        }
    }

    /// The two languages generate the same module for the same bytes and
    /// export mode.
    pub proof fn lemma_languages_agree(bytes: Seq<u8>, mode: ExportMode)
        ensures
            OutputLanguage::EcmaScript.text_of(bytes, mode) == OutputLanguage::TypeScript.text_of(
                bytes,
                mode,
            ),
    {
    }

    /// No keyword names two languages, so every name of a language selects
    /// that language.
    pub proof fn lemma_name_selects(self, keyword: Seq<char>)
        requires
            self.is_named(keyword),
        ensures
            OutputLanguage::of_keyword(keyword) == Ok::<OutputLanguage, CaberError>(self),
    {
        reveal_strlit("ecmascript");
        reveal_strlit("javascript");
        reveal_strlit("js");
        reveal_strlit("typescript");
        reveal_strlit("ts");
        assert("ecmascript"@[0] == 'e' && "javascript"@[0] == 'j' && "js"@[0] == 'j');
        assert("typescript"@[0] == 't' && "ts"@[0] == 't');
    }

    /// A text names a language exactly when its lowercase form is one of the
    /// keywords, and the only failure is `UnrecognizedLanguage`.
    pub proof fn lemma_of_text_cases(text: Seq<char>)
        ensures
            OutputLanguage::of_text(text) is Ok <==> exists|language: OutputLanguage|
                #[trigger] language.is_named(lowercase_of(text)),
            OutputLanguage::of_text(text) is Err ==> OutputLanguage::of_text(text) == Err::<
                OutputLanguage,
                CaberError,
            >(CaberError::UnrecognizedLanguage),
    {
        let lowered = lowercase_of(text);
        if OutputLanguage::of_text(text) is Ok {
            let language = OutputLanguage::of_text(text)->Ok_0;
            assert(language.is_named(lowered));
        }
    }

    /// Naming ignores case: texts with the same lowercase form name the
    /// same language, or fail alike.
    pub proof fn lemma_of_text_ignores_case(first: Seq<char>, second: Seq<char>)
        ensures
            lowercase_of(first) == lowercase_of(second) ==> OutputLanguage::of_text(first)
                == OutputLanguage::of_text(second),
    {
    }
}

impl FromStr for OutputLanguage {
    type Err = CaberError;

    /// Reads a language from user-supplied text, ignoring case.
    fn from_str(s: &str) -> (language: Result<Self, Self::Err>)
        ensures
            language == OutputLanguage::of_text(s@),
    {
        let lowered = to_lowercase(s);
        OutputLanguage::from_keyword(lowered.as_str())
    }
}

} // verus!
