use caber::{CaberError, ExportMode, OutputLanguage};
use std::str::FromStr;

#[test]
fn language_names_ignore_case() {
    assert_eq!(
        OutputLanguage::from_str("JavaScript"),
        Ok(OutputLanguage::EcmaScript)
    );
    assert_eq!(
        OutputLanguage::from_str("ECMASCRIPT"),
        Ok(OutputLanguage::EcmaScript)
    );
    assert_eq!(OutputLanguage::from_str("js"), Ok(OutputLanguage::EcmaScript));
    assert_eq!(OutputLanguage::from_str("TS"), Ok(OutputLanguage::TypeScript));
    assert_eq!(
        OutputLanguage::from_str("typescript"),
        Ok(OutputLanguage::TypeScript)
    );
    assert_eq!(
        OutputLanguage::from_str("TypeScript"),
        Ok(OutputLanguage::TypeScript)
    );
    assert_eq!(
        OutputLanguage::from_str("ecmascript"),
        Ok(OutputLanguage::EcmaScript)
    );
    assert_eq!(OutputLanguage::from_str("Js"), Ok(OutputLanguage::EcmaScript));
}

#[test]
fn other_language_names_fail() {
    for text in ["", "java", "es", "ecma script", " js", "js ", "typescript2", "c"] {
        assert_eq!(
            OutputLanguage::from_str(text),
            Err(CaberError::UnrecognizedLanguage)
        );
    }
}

#[test]
fn export_modes_ignore_case() {
    assert_eq!(ExportMode::from_str("default"), Ok(ExportMode::Default));
    assert_eq!(ExportMode::from_str("DEFAULT"), Ok(ExportMode::Default));
    assert_eq!(ExportMode::from_str("Default"), Ok(ExportMode::Default));
    assert_eq!(ExportMode::from_str("object"), Ok(ExportMode::Object));
    assert_eq!(ExportMode::from_str("OBJECT"), Ok(ExportMode::Object));
    assert_eq!(ExportMode::from_str("oBjEcT"), Ok(ExportMode::Object));
    assert_eq!(ExportMode::from_str("none"), Ok(ExportMode::NoExport));
    assert_eq!(ExportMode::from_str("None"), Ok(ExportMode::NoExport));
    assert_eq!(ExportMode::from_str("NONE"), Ok(ExportMode::NoExport));
}

#[test]
fn other_export_modes_fail() {
    for text in ["", "named", "defaults", " default", "none ", "no", "obj"] {
        assert_eq!(
            ExportMode::from_str(text),
            Err(CaberError::InvalidExportMode)
        );
    }
}

#[test]
fn str_parse_reads_selectors() {
    assert_eq!("Object".parse::<ExportMode>(), Ok(ExportMode::Object));
    assert_eq!("Ts".parse::<OutputLanguage>(), Ok(OutputLanguage::TypeScript));
    assert_eq!(
        "python".parse::<OutputLanguage>(),
        Err(CaberError::UnrecognizedLanguage)
    );
}

#[test]
fn keywords_are_matched_exactly() {
    assert_eq!(ExportMode::from_keyword("default"), Ok(ExportMode::Default));
    assert_eq!(ExportMode::from_keyword("object"), Ok(ExportMode::Object));
    assert_eq!(ExportMode::from_keyword("none"), Ok(ExportMode::NoExport));
    assert_eq!(
        ExportMode::from_keyword("Default"),
        Err(CaberError::InvalidExportMode)
    );
    assert_eq!(
        ExportMode::from_keyword("defaul"),
        Err(CaberError::InvalidExportMode)
    );
    assert_eq!(
        ExportMode::from_keyword("defaulT"),
        Err(CaberError::InvalidExportMode)
    );
    assert_eq!(
        OutputLanguage::from_keyword("ecmascript"),
        Ok(OutputLanguage::EcmaScript)
    );
    assert_eq!(
        OutputLanguage::from_keyword("javascript"),
        Ok(OutputLanguage::EcmaScript)
    );
    assert_eq!(
        OutputLanguage::from_keyword("js"),
        Ok(OutputLanguage::EcmaScript)
    );
    assert_eq!(
        OutputLanguage::from_keyword("typescript"),
        Ok(OutputLanguage::TypeScript)
    );
    assert_eq!(
        OutputLanguage::from_keyword("ts"),
        Ok(OutputLanguage::TypeScript)
    );
    assert_eq!(
        OutputLanguage::from_keyword("TS"),
        Err(CaberError::UnrecognizedLanguage)
    );
    assert_eq!(
        OutputLanguage::from_keyword("tt"),
        Err(CaberError::UnrecognizedLanguage)
    );
}

#[test]
fn text_beyond_ascii_is_compared_in_full() {
    assert_eq!(
        OutputLanguage::from_str("j\u{017F}"),
        Err(CaberError::UnrecognizedLanguage)
    );
    assert_eq!(
        ExportMode::from_str("n\u{00F6}ne"),
        Err(CaberError::InvalidExportMode)
    );
    assert_eq!(
        ExportMode::from_keyword("non\u{00E9}"),
        Err(CaberError::InvalidExportMode)
    );
}

#[test]
fn errors_name_the_accepted_values() {
    assert_eq!(
        CaberError::InvalidExportMode.message(),
        "invalid export mode provided. Expected default, object, or none"
    );
    assert_eq!(
        CaberError::UnrecognizedLanguage.message(),
        "unrecognized output language requested. Expected JavaScript / ECMAScript or TypeScript"
    );
}
