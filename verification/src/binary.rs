//! A borrowed byte sequence and its rendering as a module.

use crate::decimal::byte_to_decimal;
use crate::export_mode::{CaberConfig, ExportMode};
use crate::template::{array_text, exported_text, module_text};
use vstd::prelude::*;
use vstd::string::StringExecFns;
use vstd::utf8::encode_utf8;

verus! {

/// What a [`Binary`] stands for: the bytes it borrows and its settings.
pub struct BinaryView {
    pub bytes: Seq<u8>,
    pub config: CaberConfig,
}

/// Binary data to embed, together with the settings of its rendering.
#[derive(Clone, Copy)]
pub struct Binary<'a> {
    bytes: &'a [u8],
    config: CaberConfig,
}

impl<'a> View for Binary<'a> {
    type V = BinaryView;

    closed spec fn view(&self) -> BinaryView {
        BinaryView { bytes: self.bytes@, config: self.config }
    }
}

impl<'a> Default for Binary<'a> {
    fn default() -> (binary: Self)
        ensures
            binary@.bytes == Seq::<u8>::empty(),
            binary@.config == (CaberConfig { export_mode: ExportMode::Default }),
    {
        let binary = Binary { bytes: &[], config: CaberConfig::default() };
        assert(binary.bytes@ =~= Seq::<u8>::empty());
        binary
    }
}

impl<'a> Binary<'a> {
    /// Borrows `bytes` for rendering under the default settings.
    pub fn new(bytes: &'a [u8]) -> (binary: Self)
        ensures
            binary@.bytes == bytes@,
            binary@.config == (CaberConfig { export_mode: ExportMode::Default }),
    {
        Self { bytes, config: CaberConfig::default() }
    }

    /// Replaces the settings and keeps the bytes.
    pub fn with_config(self, config: CaberConfig) -> (binary: Self)
        ensures
            binary@.bytes == self@.bytes,
            binary@.config == config,
    {
        Self { bytes: self.bytes, config }
    }

    /// Renders the bytes as a JavaScript module.
    pub fn to_javascript(&self) -> (text: String)
        ensures
            text@ == module_text(self@.bytes, self@.config.export_mode),
    {
        self.to_ecmascript()
    }

    /// Renders the bytes as a TypeScript module, which reads the same as the
    /// ECMAScript one.
    pub fn to_typescript(&self) -> (text: String)
        ensures
            text@ == module_text(self@.bytes, self@.config.export_mode),
    {
        self.to_ecmascript()
    }

    /// Renders the bytes as an ECMAScript module.
    pub fn to_ecmascript(&self) -> (text: String)
        ensures
            text@ == module_text(self@.bytes, self@.config.export_mode),
    {
        let mut array_innards = String::new();
        let mut byte_index: usize = 0;
        assert(self.bytes@.take(0) =~= Seq::<u8>::empty());
        while byte_index < self.bytes.len()
            invariant
                byte_index <= self.bytes@.len(),
                array_innards@ == array_text(self.bytes@.take(byte_index as int)),
            decreases self.bytes@.len() - byte_index,
        {
            let ghost done = self.bytes@.take(byte_index as int);
            let ghost next = self.bytes@.take(byte_index + 1);
            if byte_index != 0 {
                array_innards.append(", ");
            }
            let element = byte_to_decimal(self.bytes[byte_index]);
            array_innards.append(element.as_str());
            proof {
                assert(next.drop_last() =~= done);
                assert(next.last() == self.bytes@[byte_index as int]);
                assert(array_innards@ =~= array_text(next));
            }
            byte_index += 1;
        }
        assert(self.bytes@.take(byte_index as int) =~= self.bytes@);
        self.export_text(array_innards)
    }

    /// Rendering reads the bytes and the settings and nothing else: what
    /// stands for the same bytes and settings renders to the same text,
    /// down to its UTF-8 bytes, however often it is asked.
    pub proof fn lemma_same_view_same_text(first: Binary<'_>, second: Binary<'_>)
        requires
            first@.bytes == second@.bytes,
            first@.config == second@.config,
        ensures
            module_text(first@.bytes, first@.config.export_mode) == module_text(
                second@.bytes,
                second@.config.export_mode,
            ),
            encode_utf8(module_text(first@.bytes, first@.config.export_mode)) == encode_utf8(
                module_text(second@.bytes, second@.config.export_mode),
            ),
    {
    }

    /// Wraps the elements of an array literal in the declaration of
    /// `binary` and in the export statement that the settings ask for.
    pub fn export_text(&self, array_innards: String) -> (text: String)
        ensures
            text@ == exported_text(array_innards@, self@.config.export_mode),
    {
        let mut text = String::from_str("const binary = new Uint8Array([");
        text.append(array_innards.as_str());
        text.append("]);");
        match self.config.export_mode {
            ExportMode::Default => {
                text.append("\r\n");
                text.append("export default binary;");
            },
            ExportMode::Object => {
                text.append("\r\n");
                text.append("export { binary };");
            },
            ExportMode::NoExport => {},
        }
        text
    }
}

} // verus!
