//! Where a subtitle is shown: bounding boxes and sizes, in pixels.
use vstd::prelude::*;

pub mod area;

pub use area::{Area, AreaValues};

verus! {

/// Errors of the content types.
#[derive(Debug, Clone, Copy, PartialEq, Eq, Structural)]
pub enum ContentError {
    /// The bounds do not enclose at least two columns and two rows:
    /// `x2 <= x1` or `y2 <= y1`.
    InvalidAreaBounding,
}

/// Width and height of a piece of content, in pixels.
#[derive(Debug, Clone, Copy, PartialEq, Eq, Structural)]
pub struct Size {
    /// Width in pixels.
    pub w: usize,
    /// Height in pixels.
    pub h: usize,
}

} // verus!
