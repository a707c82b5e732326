//! What a command-line front end decides between reading its input and
//! writing its output.

use crate::binary::Binary;
use crate::export_mode::{CaberConfig, ExportMode};
use crate::language::OutputLanguage;
use crate::text::same_text;
use vstd::prelude::*;

verus! {

/// Where the generated module is written.
#[derive(Debug, PartialEq, Eq)]
pub enum OutputTarget {
    /// Standard output.
    Stdout,
    /// The file at this path.
    File(String),
}

/// The language that is used where the user names none.
pub open spec fn language_or_default(output_lang: Option<OutputLanguage>) -> OutputLanguage {
    match output_lang {
        Some(language) => language,
        None => OutputLanguage::EcmaScript,
    }
}

/// The export mode that is used where the user names none.
pub open spec fn export_mode_or_default(export_mode: Option<ExportMode>) -> ExportMode {
    match export_mode {
        Some(mode) => mode,
        None => ExportMode::Default,
    }
}

/// The target that an output path stands for: standard output where the
/// path is missing or is `-`, else the file at the path.
pub open spec fn target_of(output_file: Option<String>) -> OutputTarget {
    match output_file {
        Some(path) => if path@ == "-"@ {
            OutputTarget::Stdout
        } else {
            OutputTarget::File(path)
        },
        None => OutputTarget::Stdout,
    }
}

/// Generates the module for the bytes of the input file, in the language
/// and under the export mode that the user chose, or the defaults.
pub fn generate(
    input_file_bytes: &[u8],
    output_lang: Option<OutputLanguage>,
    export_mode: Option<ExportMode>,
) -> (output_string: String)
    ensures
        output_string@ == language_or_default(output_lang).text_of(
            input_file_bytes@,
            export_mode_or_default(export_mode),
        ),
{
    let export_mode = match export_mode {
        Some(mode) => mode,
        None => ExportMode::Default,
    };
    let language = match output_lang {
        Some(language) => language,
        None => OutputLanguage::EcmaScript,
    };
    let binary = Binary::new(input_file_bytes).with_config(CaberConfig { export_mode });
    language.render(&binary)
}

/// Decides where the output goes.
pub fn output_target(output_file: Option<String>) -> (target: OutputTarget)
    ensures
        target == target_of(output_file),
{
    match output_file {
        Some(path) => {
            if same_text(path.as_str(), "-") {
                OutputTarget::Stdout
            } else {
                OutputTarget::File(path)
            }
        },
        None => OutputTarget::Stdout,
    }
}

} // verus!
