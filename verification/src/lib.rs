//! Striped banners for the terminal: background stripes, with wedges, rings
//! and single glyphs laid over them, rendered cell by cell to lines of text.

pub mod banner;
pub mod cli;
pub mod color;
pub mod flag;
pub mod layer;
pub mod odd;
pub mod overlay;
pub mod term;
pub mod text;
