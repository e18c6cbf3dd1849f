use crate::mat::{mat_seq, mat_small, mat_wf, mat_width, Mat};
use vstd::arithmetic::div_mod::{
    lemma_div_is_ordered, lemma_div_pos_is_pos, lemma_fundamental_div_mod_converse,
    lemma_mod_bound,
};
use vstd::prelude::*;

verus! {

/// The interleaved RGB buffer a single-channel matrix expands to: three
/// identical samples per cell, row-major, so byte k belongs to the pixel
/// k / 3, which sits at row (k / 3) / w, column (k / 3) % w.
pub open spec fn expand_of(s: Seq<Seq<i64>>, h: int, w: int) -> Seq<u8> {
    Seq::new((h * w * 3) as nat, |k: int| s[k / 3 / w][(k / 3) % w] as u8)
}

/// Byte (i * w + j) * 3 + t of an expanded buffer addresses cell (i, j).
pub proof fn lemma_flat_index(i: int, j: int, t: int, w: int)
    requires
        0 <= j < w,
        0 <= i,
        0 <= t < 3,
    ensures
        ((i * w + j) * 3 + t) / 3 == i * w + j,
        (i * w + j) / w == i,
        (i * w + j) % w == j,
{
    assert(i * w >= 0) by (nonlinear_arith)
        requires
            i >= 0,
            w >= 0,
    ;
    lemma_fundamental_div_mod_converse((i * w + j) * 3 + t, 3, i * w + j, t);
    lemma_fundamental_div_mod_converse(i * w + j, w, i, j);
}

/// Every byte index of an expanded h x w x 3 buffer addresses a cell that
/// lies inside the matrix.
pub proof fn lemma_flat_pixel_bounds(k: int, h: int, w: int)
    requires
        0 <= k < h * w * 3,
        0 <= h,
        0 <= w,
    ensures
        0 <= k / 3 < h * w,
        0 <= k / 3 / w < h,
        0 <= (k / 3) % w < w,
{
    assert(h * w > 0 && h > 0 && w > 0) by (nonlinear_arith)
        requires
            0 <= k < h * w * 3,
            0 <= h,
            0 <= w,
    ;
    lemma_div_pos_is_pos(k, 3);
    lemma_fundamental_div_mod_converse(h * w * 3 - 1, 3, h * w - 1, 2);
    lemma_div_is_ordered(k, h * w * 3 - 1, 3);
    lemma_div_pos_is_pos(k / 3, w);
    assert((h - 1) * w + (w - 1) == h * w - 1) by (nonlinear_arith);
    lemma_fundamental_div_mod_converse(h * w - 1, w, h - 1, w - 1);
    lemma_div_is_ordered(k / 3, h * w - 1, w);
    lemma_mod_bound(k / 3, w);
}

/// Channel expansion: replicates each cell of a single-channel matrix into
/// the three samples of an RGB pixel buffer for display.
#[verifier::loop_isolation(false)]
pub fn mat_to_rgb(m: &Mat) -> (out: Vec<u8>)
    requires
        mat_wf(*m),
        mat_small(*m),
    ensures
        out@.len() == mat_seq(*m).len() * mat_width(*m) * 3,
        out@ == expand_of(mat_seq(*m), mat_seq(*m).len() as int, mat_width(*m) as int),
{
    let h = m.rows();
    let w = m.cols();
    let ghost target = expand_of(mat_seq(*m), h as int, w as int);
    let mut out: Vec<u8> = Vec::new();
    proof {
        assert(0 * (w as int) * 3 == 0) by (nonlinear_arith);
    }
    for i in 0..h
        invariant
            out@.len() == i * w * 3,
            forall|k: int| 0 <= k < out@.len() ==> out@[k] == target[k],
    {
        for j in 0..w
            invariant
                out@.len() == (i * w + j) * 3,
                forall|k: int| 0 <= k < out@.len() ==> out@[k] == target[k],
        {
            let v = m.get(i, j);
            let b = v as u8;
            proof {
                assert(i * w + j < h * w && (i * w + j) * 3 + 2 < h * w * 3) by (nonlinear_arith)
                    requires
                        0 <= i < h,
                        0 <= j < w,
                ;
                lemma_flat_index(i as int, j as int, 0, w as int);
                lemma_flat_index(i as int, j as int, 1, w as int);
                lemma_flat_index(i as int, j as int, 2, w as int);
            }
            out.push(b);
            out.push(b);
            out.push(b);
        }
        proof {
            assert((i * w + w) * 3 == (i + 1) * w * 3) by (nonlinear_arith);
        }
    }
    proof {
        assert(out@ =~= target);
    }
    out
}

} // verus!
