//! Caption controls for frameless desktop windows: the decisions behind the
//! title bar overlay, the snap-layout hover overlay and the caption glyphs.

pub mod digits;
pub mod error;
pub mod glyph;
pub mod geometry;
pub mod snap;
pub mod models;
pub mod scripts;
pub mod caption;
