//! A verified layout engine for printable dot-grid and weekly-calendar sheets.
//!
//! A page is split into four quadrants, each holding a lattice of dots, a
//! three-box header strip, and (for calendar pages) a 7-column day table.
//! All geometry is computed in integer hundredths of a millimetre, so every
//! coordinate is exact; the finished drawables carry their coordinates as
//! `"12.35mm"`-style strings ready for an SVG sink.
#![verifier::loop_isolation(false)]

pub mod laws;
pub mod layout;
pub mod render;
pub mod shapes;
pub mod units;
