//! Diagnostics and fatal errors, as values.
//!
//! The machine never writes to a status sink itself: handlers return the
//! warnings they raise and the caller logs them. A fatal error aborts the
//! whole conversion; a warning drops only the offending unit.

use vstd::prelude::*;

verus! {

/// A recoverable diagnostic; the offending text is carried for traceability.
#[derive(Debug)]
pub enum Warning {
    /// A special missing its expected separator.
    MalformedSpecial(Vec<u8>),
    /// A provide-special of a kind this stage does not support.
    UnsupportedSpecial(Vec<u8>),
    /// A provide-file special seen before initialization finished.
    TooSoonProvideFile,
    /// A canvas-end special with no open canvas.
    UnpairedCanvasEnd(Vec<u8>),
    /// A content event after the content was sealed.
    PostFinishContent(Vec<u8>),
    /// A glyph with no reverse mapping to a character; it is dropped.
    UnmappedGlyph { glyph: u16, rel_url: Vec<u8>, face_index: u32 },
    /// Content left in the buffer when the content was sealed.
    UnemittedContent,
    /// A glyph run outside any canvas.
    GlyphRunOutsideCanvas,
}

/// A fatal error; it aborts the whole conversion.
#[derive(Debug)]
pub enum EngineError {
    /// The stream header did not announce the expected stream type.
    BadStreamType,
    /// An output path with a `..` segment; carries the path.
    PathDotDot(Vec<u8>),
    /// An output path with an absolute or rooted segment; carries the path.
    PathRooted(Vec<u8>),
    /// A canvas glyph referencing a font id never declared.
    UndeclaredFont(i32),
}

} // verus!
