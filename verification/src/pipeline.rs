use crate::edges::{edge_of, get_edge};
use crate::expand::{expand_of, mat_to_rgb};
use crate::gradient::{dir_of, magsq_of};
use crate::gray::{gray_of, rgb_to_gray_mat};
use crate::smooth::{apply_gaussian_filter, smooth_of};
use vstd::prelude::*;

verus! {

/// The whole detector on one decoded frame: grayscale reduction, 5 x 5
/// smoothing, Sobel gradient with quantized directions, directional
/// non-maximum suppression against the fixed threshold, and expansion of
/// the binary result back to an RGB buffer.
pub open spec fn edge_pipeline(buf: Seq<u8>, h: int, w: int) -> Seq<u8> {
    let g = gray_of(buf, h, w);
    let sm = smooth_of(g, h, w);
    let mag = magsq_of(sm, h, w);
    let dir = dir_of(sm, h, w);
    let e = edge_of(mag, dir, h, w);
    expand_of(e, h, w)
}

/// Runs the detector on one frame. The buffer must hold exactly h rows of
/// w RGB pixels; a buffer of any other length is a caller error and is
/// rejected here rather than processed.
pub fn run_pipeline(buf: &[u8], h: usize, w: usize) -> (out: Vec<u8>)
    requires
        buf@.len() == h * w * 3,
        h * w <= 0x7fff_ffff,
    ensures
        out@.len() == h * w * 3,
        out@ == edge_pipeline(buf@, h as int, w as int),
{
    let g = rgb_to_gray_mat(buf, h, w);
    let sm = apply_gaussian_filter(&g);
    let e = get_edge(&sm);
    mat_to_rgb(&e)
}

/// Runs the detector after checking the declared shape itself: a buffer
/// whose length is not exactly h x w x 3, or a frame too large to
/// allocate, aborts the frame with None; every other frame is processed.
pub fn try_run_pipeline(buf: &[u8], h: usize, w: usize) -> (out: Option<Vec<u8>>)
    ensures
        match out {
            Some(v) => buf@.len() == h * w * 3 && h * w <= 0x7fff_ffff && v@ == edge_pipeline(
                buf@,
                h as int,
                w as int,
            ),
            None => buf@.len() != h * w * 3 || h * w > 0x7fff_ffff,
        },
{
    let n = buf.len();
    match h.checked_mul(w) {
        Some(pixels) if pixels <= 0x7fff_ffff => match pixels.checked_mul(3) {
            Some(expected) => {
                if n == expected {
                    Some(run_pipeline(buf, h, w))
                } else {
                    None
                }
            },
            None => None,
        },
        _ => None,
    }
}

} // verus!
