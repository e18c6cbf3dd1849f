use crate::edges::edge_of;
use crate::expand::{expand_of, lemma_flat_index, lemma_flat_pixel_bounds};
use crate::gradient::{dir_of, magsq_of, sobel_gx, sobel_gy};
use crate::gray::{gray_of, lum_val};
use crate::interior;
use crate::pipeline::edge_pipeline;
use crate::smooth::{gauss_at, smooth_of};
use vstd::arithmetic::div_mod::lemma_div_multiples_vanish;
use vstd::prelude::*;

verus! {

/// A frame of one uniform color has the same luminance everywhere, so the
/// smoothed matrix is constant, the gradient is zero at every interior
/// cell, and the detector reports no edges: every byte of the output
/// buffer is zero.
pub proof fn lemma_uniform_frame_no_edges(buf: Seq<u8>, h: int, w: int, r0: u8, g0: u8, b0: u8)
    requires
        h >= 0,
        w >= 0,
        buf.len() == h * w * 3,
        forall|p: int| #![trigger buf[p * 3]]
            0 <= p < h * w ==> buf[p * 3] == r0 && buf[p * 3 + 1] == g0 && buf[p * 3 + 2] == b0,
    ensures
        forall|k: int| 0 <= k < h * w * 3 ==> edge_pipeline(buf, h, w)[k] == 0,
{
    let lum = lum_val(r0 as int, g0 as int, b0 as int);
    let g = gray_of(buf, h, w);
    let sm = smooth_of(g, h, w);
    let mag = magsq_of(sm, h, w);
    let dir = dir_of(sm, h, w);
    let e = edge_of(mag, dir, h, w);
    assert(0 <= lum <= 255);
    assert forall|i: int, j: int| 0 <= i < h && 0 <= j < w implies g[i][j] == lum as i64 by {
        assert(0 <= i * w + j < h * w) by (nonlinear_arith)
            requires
                0 <= i < h,
                0 <= j < w,
        ;
    }
    assert forall|i: int, j: int| 0 <= i < h && 0 <= j < w implies sm[i][j] == lum as i64 by {
        if interior(h, w, i, j) {
            assert(gauss_at(g, i, j) == (159 * lum) / 159);
            lemma_div_multiples_vanish(lum, 159);
        }
    }
    assert forall|i: int, j: int| 0 <= i < h && 0 <= j < w implies mag[i][j] == 0 by {
        if interior(h, w, i, j) {
            assert(sobel_gx(sm, i, j) == 0);
            assert(sobel_gy(sm, i, j) == 0);
        }
    }
    assert forall|i: int, j: int| 0 <= i < h && 0 <= j < w implies e[i][j] == 0 by {}
    assert forall|k: int| 0 <= k < h * w * 3 implies edge_pipeline(buf, h, w)[k] == 0 by {
        lemma_flat_pixel_bounds(k, h, w);
    }
}

/// An all-black frame is a uniform frame, so the detector finds no false
/// edges in a flat field: every byte of the output buffer is zero.
pub proof fn lemma_black_frame_no_edges(buf: Seq<u8>, h: int, w: int)
    requires
        h >= 0,
        w >= 0,
        buf.len() == h * w * 3,
        forall|k: int| 0 <= k < buf.len() ==> buf[k] == 0,
    ensures
        forall|k: int| 0 <= k < h * w * 3 ==> edge_pipeline(buf, h, w)[k] == 0,
{
    assert forall|p: int| #![trigger buf[p * 3]]
        0 <= p < h * w implies buf[p * 3] == 0 && buf[p * 3 + 1] == 0 && buf[p * 3 + 2]
        == 0 by {
        assert(0 <= p * 3 && p * 3 + 2 < h * w * 3) by (nonlinear_arith)
            requires
                0 <= p < h * w,
        ;
    }
    lemma_uniform_frame_no_edges(buf, h, w, 0, 0, 0);
}

/// The rendering is binary whatever the frame holds: every byte of the
/// output buffer is either 0 or 255.
pub proof fn lemma_output_is_binary(buf: Seq<u8>, h: int, w: int)
    requires
        h >= 0,
        w >= 0,
    ensures
        forall|k: int|
            0 <= k < h * w * 3 ==> edge_pipeline(buf, h, w)[k] == 0 || edge_pipeline(buf, h, w)[k]
                == 255,
{
    assert forall|k: int|
        0 <= k < h * w * 3 implies edge_pipeline(buf, h, w)[k] == 0 || edge_pipeline(buf, h, w)[k]
        == 255 by {
        lemma_flat_pixel_bounds(k, h, w);
    }
}

/// Expanding a single-channel matrix to RGB and reducing the result back
/// to luminance recovers every cell exactly: three equal byte samples have
/// their common value as luminance.
pub proof fn lemma_expand_then_reduce(s: Seq<Seq<i64>>, h: int, w: int)
    requires
        h >= 0,
        w >= 0,
        s.len() == h,
        forall|i: int| 0 <= i < h ==> (#[trigger] s[i]).len() == w,
        forall|i: int, j: int| 0 <= i < h && 0 <= j < w ==> 0 <= #[trigger] s[i][j] <= 255,
    ensures
        gray_of(expand_of(s, h, w), h, w) == s,
{
    let buf = expand_of(s, h, w);
    let g = gray_of(buf, h, w);
    assert forall|i: int| 0 <= i < h implies g[i] =~= s[i] by {
        assert forall|j: int| 0 <= j < w implies g[i][j] == s[i][j] by {
            let v = s[i][j] as int;
            assert(0 <= i * w + j && (i * w + j) * 3 + 2 < h * w * 3) by (nonlinear_arith)
                requires
                    0 <= i < h,
                    0 <= j < w,
            ;
            lemma_flat_index(i, j, 0, w);
            lemma_flat_index(i, j, 1, w);
            lemma_flat_index(i, j, 2, w);
            assert(30 * v + 59 * v + 11 * v == 100 * v);
            lemma_div_multiples_vanish(v, 100);
        }
    }
    assert(g =~= s);
}

} // verus!
