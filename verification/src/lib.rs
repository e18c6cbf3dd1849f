//! A per-frame edge detector for a live camera feed: a simplified
//! Canny-style pipeline that turns a decoded RGB frame into a binary
//! (0/255) edge rendering of the same shape. The stages are grayscale
//! reduction, a fixed 5 x 5 Gaussian smoothing, a Sobel gradient with the
//! direction quantized to four buckets, directional non-maximum
//! suppression against a fixed threshold, and expansion of the
//! single-channel result back to RGB for display.
//!
//! Numeric policy: every stage works in whole numbers. Luminance is the
//! weighted sum 0.30 R + 0.59 G + 0.11 B truncated to an integer, and the
//! smoothed matrix keeps the truncated weighted average, so smoothing a
//! constant matrix returns it unchanged. Gradient strength is carried as
//! the squared magnitude, which orders cells exactly as the magnitude
//! itself does and turns the threshold of 10 into a comparison against
//! 100. The direction buckets of `atan(gx / gy)` are decided exactly over
//! integers (see `gradient::rough_angle_val`); the ratio is deliberately
//! gx over gy, and the 90 and 135 degree rows of the suppression table
//! deliberately share one diagonal neighbor pair, preserving the
//! detector's established output.
//!
//! Each matrix is created fresh by its producing stage; any cell within
//! two rows or columns of an edge is a border-ring cell, which smoothing
//! passes through and the gradient and edge stages leave at zero.

pub mod capture;
pub mod edges;
pub mod expand;
pub mod gradient;
pub mod gray;
pub mod laws;
pub mod mat;
pub mod pipeline;
pub mod smooth;

use vstd::prelude::*;

verus! {

/// A cell (i, j) of an h x w matrix far enough from every edge that both a
/// 5 x 5 neighborhood around it and a one-cell comparison around its inner
/// 3 x 3 ring stay inside the matrix. Every kernel stage reserves this same
/// two-cell border ring and leaves it to its fallback value.
pub open spec fn interior(h: int, w: int, i: int, j: int) -> bool {
    2 <= i && i + 2 < h && 2 <= j && j + 2 < w
}

} // verus!
