use crate::mat::{mat_bounded, mat_seq, mat_small, mat_wf, mat_width, Mat};
use vstd::prelude::*;

verus! {

/// Integer luminance of one RGB pixel: the weighted sum
/// `0.30 R + 0.59 G + 0.11 B`, computed over hundredths and truncated to a
/// whole number.
pub open spec fn lum_val(r: int, g: int, b: int) -> int {
    (30 * r + 59 * g + 11 * b) / 100
}

/// The luminance matrix of an interleaved RGB buffer laid out row-major,
/// h rows of w pixels of three samples each.
pub open spec fn gray_of(buf: Seq<u8>, h: int, w: int) -> Seq<Seq<i64>> {
    Seq::new(
        h as nat,
        |i: int|
            Seq::new(
                w as nat,
                |j: int|
                    lum_val(
                        buf[(i * w + j) * 3] as int,
                        buf[(i * w + j) * 3 + 1] as int,
                        buf[(i * w + j) * 3 + 2] as int,
                    ) as i64,
            ),
    )
}

/// Luminance of one pixel; always lands in the byte range.
pub fn luminance(r: u8, g: u8, b: u8) -> (v: i64)
    ensures
        v == lum_val(r as int, g as int, b as int),
        0 <= v <= 255,
{
    (30 * (r as i64) + 59 * (g as i64) + 11 * (b as i64)) / 100
}

/// Grayscale reduction: each pixel of the RGB buffer becomes its luminance.
/// The caller states the buffer's shape; a buffer whose length disagrees
/// with it is a caller error and is rejected by the precondition.
#[verifier::loop_isolation(false)]
pub fn rgb_to_gray_mat(buf: &[u8], h: usize, w: usize) -> (m: Mat)
    requires
        buf@.len() == h * w * 3,
        h * w <= 0x7fff_ffff,
    ensures
        mat_seq(m).len() == h,
        mat_width(m) == w,
        mat_wf(m),
        mat_small(m),
        mat_bounded(m, 0, 255),
        mat_seq(m) == gray_of(buf@, h as int, w as int),
{
    let ghost target = gray_of(buf@, h as int, w as int);
    // Reading the length pins h * w * 3 to a machine word, so the sample
    // indices below stay within usize.
    let _buf_len: usize = buf.len();
    let mut m = Mat::new(h, w, 0);
    for i in 0..h
        invariant
            mat_seq(m).len() == h,
            mat_width(m) == w,
            mat_wf(m),
            mat_bounded(m, 0, 255),
            forall|r: int, c: int|
                0 <= r < i && 0 <= c < w ==> mat_seq(m)[r][c] == target[r][c],
    {
        for j in 0..w
            invariant
                mat_seq(m).len() == h,
                mat_width(m) == w,
                mat_wf(m),
                mat_bounded(m, 0, 255),
                forall|r: int, c: int|
                    0 <= r < i && 0 <= c < w ==> mat_seq(m)[r][c] == target[r][c],
                forall|c: int| 0 <= c < j ==> mat_seq(m)[i as int][c] == target[i as int][c],
        {
            proof {
                assert(i * w + j < h * w) by (nonlinear_arith)
                    requires i < h, j < w;
                assert((i * w + j) * 3 + 2 < h * w * 3) by (nonlinear_arith)
                    requires i * w + j < h * w;
            }
            let idx: usize = (i * w + j) * 3;
            let v = luminance(buf[idx], buf[idx + 1], buf[idx + 2]);
            m.set(i, j, v);
        }
    }
    proof {
        assert forall|r: int| 0 <= r < h implies mat_seq(m)[r] =~= target[r] by {
        }
        assert(mat_seq(m) =~= target);
    }
    m
}

} // verus!
