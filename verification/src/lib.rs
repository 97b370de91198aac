//! A uniform grid layout: items are arranged row by row into equal-sized
//! cells inside a box whose size is resolved against the space on offer.
//!
//! All lengths are whole numbers of layout units. A cell's extent is kept as
//! an exact fraction, so that no rounding happens inside the library.

pub mod arrange;
pub mod count;
pub mod grid;
pub mod laws;
pub mod length;
pub mod place;
