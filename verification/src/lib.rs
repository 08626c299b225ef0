//! Block-letter banner rendering.
//!
//! The library turns an input string into large ASCII-art text: a fixed
//! glyph table maps each supported character to its six-row block form,
//! and the renderer stitches those rows into seven aligned output lines.
//! A small amount of supporting logic (case normalization, unique output
//! file naming, console style selection) lives in its own modules.

pub mod display;
pub mod filenames;
pub mod glyphs;
pub mod render;
pub mod strutil;
