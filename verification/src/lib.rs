//! Embeds binary data into JavaScript and TypeScript modules.
//!
//! A [`Binary`] borrows a byte sequence and renders it as the source text of
//! a module that binds the bytes, as a `Uint8Array`, to the name `binary`,
//! and exports that name in the way an [`ExportMode`] asks for.
//!
//! The text is specified in [`template`] as a sequence of characters, and
//! every rendering function is proved to return exactly that text. The
//! selectors that a user types are read by [`ExportMode`] and
//! [`OutputLanguage`], and [`cli`] holds what a command-line front end has
//! to decide between reading its input and writing its output.

pub mod binary;
pub mod cli;
pub mod decimal;
pub mod error;
pub mod export_mode;
pub mod language;
pub mod template;
pub mod text;

pub use binary::{Binary, BinaryView};
pub use error::CaberError;
pub use export_mode::{CaberConfig, ExportMode};
pub use language::OutputLanguage;
