//! Renders the time of day (and optionally the date) as Braille dot glyphs.
pub mod glyph;
pub mod instant;
pub mod config;
pub mod render;
