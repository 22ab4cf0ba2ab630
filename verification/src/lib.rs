//! Core of a slippy-map vector-tile renderer: tile geometry decoding, style
//! expression evaluation, label layout, tile pyramid fallback, and draw-command
//! batching, with machine-checked contracts.
//!
//! Continuous quantities (zoom levels, widths, color channels, glyph metrics)
//! are fixed-point integers with three decimal places; see [`num`].

pub mod bytes;
pub mod cache;
pub mod geometry;
pub mod num;
pub mod style;
pub mod tess;
pub mod text;
pub mod tile;
pub mod tile_source;
pub mod versatiles;
