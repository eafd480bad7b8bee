//! A horizontal progress gauge rendered into a character-cell buffer.
//!
//! The gauge paints a base style over its allotted rectangle, derives a
//! drawable rectangle (optionally inset by a surrounding block, except in
//! single-row areas where the full area is kept), fills a proportional span
//! of cells, overlays a centered label on the middle row, and swaps the
//! fill style's foreground and background over the filled span so the bar
//! reads as highlighted without a dedicated fill glyph.

pub mod model;
pub mod rational;
pub mod tui_api;
pub mod label;
pub mod gauge;
pub mod laws;
