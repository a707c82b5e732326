use caber::decimal::byte_to_decimal;
use caber::{Binary, CaberConfig, ExportMode};

fn render(bytes: &[u8], export_mode: ExportMode) -> String {
    Binary::new(bytes)
        .with_config(CaberConfig { export_mode })
        .to_ecmascript()
}

#[test]
fn to_ecmascript() {
    let bin = Binary::new(&[0, 1, 2, 3]);
    assert_eq!(
        bin.to_ecmascript(),
        String::from("const binary = new Uint8Array([0, 1, 2, 3]);\r\nexport default binary;")
    )
}

#[test]
fn empty_input_without_export() {
    assert_eq!(
        render(&[], ExportMode::NoExport),
        "const binary = new Uint8Array([]);"
    );
}

#[test]
fn single_byte_as_named_export() {
    assert_eq!(
        render(&[255], ExportMode::Object),
        "const binary = new Uint8Array([255]);\r\nexport { binary };"
    );
}

#[test]
fn empty_input_keeps_the_rest_of_each_template() {
    assert_eq!(
        render(&[], ExportMode::Default),
        "const binary = new Uint8Array([]);\r\nexport default binary;"
    );
    assert_eq!(
        render(&[], ExportMode::Object),
        "const binary = new Uint8Array([]);\r\nexport { binary };"
    );
}

#[test]
fn default_export_follows_a_line_break() {
    let text = render(&[7, 8], ExportMode::Default);
    assert!(text.starts_with("const binary = new Uint8Array([7, 8]);"));
    assert!(text.ends_with("\r\nexport default binary;"));
    assert_eq!(text.matches("\r\n").count(), 1);
}

#[test]
fn no_export_means_no_export_statement() {
    let text = render(&[1, 2, 3], ExportMode::NoExport);
    assert_eq!(text, "const binary = new Uint8Array([1, 2, 3]);");
    assert!(!text.contains("export"));
    assert!(!text.contains('\r'));
    assert!(!text.contains('\n'));
}

#[test]
fn named_export_differs_from_default_export() {
    let named = render(&[42], ExportMode::Object);
    let default = render(&[42], ExportMode::Default);
    assert_ne!(named, default);
    assert!(named.ends_with("export { binary };"));
    assert!(!named.contains("default"));
    assert!(default.ends_with("export default binary;"));
}

#[test]
fn bytes_keep_their_order_and_their_repeats() {
    assert_eq!(
        render(&[3, 3, 1, 2, 1], ExportMode::NoExport),
        "const binary = new Uint8Array([3, 3, 1, 2, 1]);"
    );
    assert_ne!(
        render(&[1, 2], ExportMode::NoExport),
        render(&[2, 1], ExportMode::NoExport)
    );
    assert_ne!(
        render(&[1, 2], ExportMode::NoExport),
        render(&[12], ExportMode::NoExport)
    );
}

#[test]
fn separators_stand_between_elements_only() {
    assert_eq!(
        render(&[9], ExportMode::NoExport),
        "const binary = new Uint8Array([9]);"
    );
    assert_eq!(
        render(&[9, 10], ExportMode::NoExport),
        "const binary = new Uint8Array([9, 10]);"
    );
    assert_eq!(
        render(&[0, 100, 200], ExportMode::NoExport),
        "const binary = new Uint8Array([0, 100, 200]);"
    );
}

#[test]
fn bytes_are_written_in_plain_decimal() {
    assert_eq!(byte_to_decimal(0), "0");
    assert_eq!(byte_to_decimal(7), "7");
    assert_eq!(byte_to_decimal(9), "9");
    assert_eq!(byte_to_decimal(10), "10");
    assert_eq!(byte_to_decimal(99), "99");
    assert_eq!(byte_to_decimal(100), "100");
    assert_eq!(byte_to_decimal(101), "101");
    assert_eq!(byte_to_decimal(110), "110");
    assert_eq!(byte_to_decimal(255), "255");
}

#[test]
fn every_byte_is_written_as_the_standard_library_writes_it() {
    let mut byte: u8 = 0;
    loop {
        assert_eq!(byte_to_decimal(byte), byte.to_string());
        if byte == u8::MAX {
            break;
        }
        byte += 1;
    }
}

#[test]
fn all_bytes_in_one_array() {
    let bytes: Vec<u8> = (0..=255).collect();
    let expected_elements: Vec<String> = bytes.iter().map(|byte| byte.to_string()).collect();
    let expected = format!(
        "const binary = new Uint8Array([{}]);\r\nexport default binary;",
        expected_elements.join(", ")
    );
    assert_eq!(render(&bytes, ExportMode::Default), expected);
}

#[test]
fn rendering_twice_gives_the_same_bytes() {
    let data = [0u8, 17, 128, 255];
    let binary = Binary::new(&data).with_config(CaberConfig {
        export_mode: ExportMode::Object,
    });
    let first = binary.to_ecmascript();
    let second = binary.to_ecmascript();
    assert_eq!(first.as_bytes(), second.as_bytes());
    let copy = Binary::new(&[0u8, 17, 128, 255]).with_config(CaberConfig {
        export_mode: ExportMode::Object,
    });
    assert_eq!(copy.to_ecmascript().as_bytes(), first.as_bytes());
}

#[test]
fn javascript_and_typescript_read_like_ecmascript() {
    let data = [1u8, 2, 3];
    let modes = [ExportMode::Default, ExportMode::Object, ExportMode::NoExport];
    for export_mode in modes {
        let binary = Binary::new(&data).with_config(CaberConfig { export_mode });
        assert_eq!(binary.to_javascript(), binary.to_ecmascript());
        assert_eq!(binary.to_typescript(), binary.to_ecmascript());
    }
}

#[test]
fn export_text_wraps_what_it_is_given() {
    let data = [5u8];
    let default = Binary::new(&data);
    assert_eq!(
        default.export_text(String::from("1, 2")),
        "const binary = new Uint8Array([1, 2]);\r\nexport default binary;"
    );
    let named = default.with_config(CaberConfig {
        export_mode: ExportMode::Object,
    });
    assert_eq!(
        named.export_text(String::from("1, 2")),
        "const binary = new Uint8Array([1, 2]);\r\nexport { binary };"
    );
    let bare = default.with_config(CaberConfig {
        export_mode: ExportMode::NoExport,
    });
    assert_eq!(
        bare.export_text(String::new()),
        "const binary = new Uint8Array([]);"
    );
}

#[test]
fn with_config_keeps_the_bytes() {
    let data = [4u8, 5];
    let binary = Binary::new(&data)
        .with_config(CaberConfig {
            export_mode: ExportMode::NoExport,
        })
        .with_config(CaberConfig {
            export_mode: ExportMode::Object,
        });
    assert_eq!(
        binary.to_ecmascript(),
        "const binary = new Uint8Array([4, 5]);\r\nexport { binary };"
    );
}

#[test]
fn defaults_are_empty_bytes_and_default_export() {
    assert_eq!(ExportMode::default(), ExportMode::Default);
    assert_eq!(
        CaberConfig::default(),
        CaberConfig {
            export_mode: ExportMode::Default
        }
    );
    assert_eq!(
        Binary::default().to_ecmascript(),
        "const binary = new Uint8Array([]);\r\nexport default binary;"
    );
}
