//! Renders selected characters of font files as uniformly scaled SVG glyph
//! drawings.
//!
//! The library holds the verified core: the geometric normalization that maps
//! a glyph outline from font-unit space onto a fixed-size canvas, the per-font
//! pipeline that turns requested characters into documents, the routing of
//! documents to output file names, and the scan contract (extension filter and
//! ignore rules). Reading font binaries and writing files are left to the
//! surrounding program, which hands this library plain values.

pub mod geometry;
pub mod text;
pub mod transform;
pub mod drawing;
pub mod document;
pub mod pipeline;
pub mod router;
pub mod scanning;
