//! Styled-text structure of byte streams that carry ANSI/VT escape
//! sequences.
//!
//! The crate scans a string for "Select Graphic Rendition" (SGR) control
//! sequences, turns it into alternating runs of plain text and style-change
//! events, and offers a semantic style model whose equivalence relation
//! treats differently encoded renditions of the same visual colour (a named
//! base colour against its palette index) as equal.

pub mod color;
pub mod machine;
pub mod parse;
pub mod sgr;
mod strutil;
pub mod style;
