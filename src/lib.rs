//! Splits scans of a folded, saddle-stitched booklet into single pages
//! numbered in reading order.
//!
//! Each scan holds two printed pages side by side. A scan is turned upright
//! (a quarter turn whose direction alternates with its position), cut at its
//! vertical midline, trimmed by a margin, and each half gets the final page
//! number that unfolding the booklet gives it. A directory of scans can hold
//! several booklets of equal size ("parts"), each numbered on its own.
use vstd::prelude::*;

pub mod chunking;
pub mod config;
pub mod errors;
pub mod geometry;
pub mod naming;
pub mod numbering;
pub mod ordering;
pub mod report;
pub mod splitter;

verus! {

} // verus!
