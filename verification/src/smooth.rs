use crate::interior;
use crate::mat::{mat_bounded, mat_seq, mat_small, mat_wf, mat_width, Mat};
use vstd::prelude::*;

verus! {

/// The weighted 5 x 5 average around cell (i, j): the fixed kernel
/// ```text
/// 2  4  5  4  2
/// 4  9 12  9  4
/// 5 12 15 12  5
/// 4  9 12  9  4
/// 2  4  5  4  2
/// ```
/// applied element-wise to the neighborhood, summed, and divided by the
/// kernel's weight total, 159, truncating.
pub open spec fn gauss_at(s: Seq<Seq<i64>>, i: int, j: int) -> int {
    (2 * s[i - 2][j - 2] + 4 * s[i - 2][j - 1] + 5 * s[i - 2][j] + 4 * s[i - 2][j + 1] + 2 * s[i
        - 2][j + 2] + 4 * s[i - 1][j - 2] + 9 * s[i - 1][j - 1] + 12 * s[i - 1][j] + 9 * s[i - 1][j
        + 1] + 4 * s[i - 1][j + 2] + 5 * s[i][j - 2] + 12 * s[i][j - 1] + 15 * s[i][j] + 12 * s[i][j
        + 1] + 5 * s[i][j + 2] + 4 * s[i + 1][j - 2] + 9 * s[i + 1][j - 1] + 12 * s[i + 1][j] + 9
        * s[i + 1][j + 1] + 4 * s[i + 1][j + 2] + 2 * s[i + 2][j - 2] + 4 * s[i + 2][j - 1] + 5
        * s[i + 2][j] + 4 * s[i + 2][j + 1] + 2 * s[i + 2][j + 2]) / 159
}

/// The smoothed matrix: the weighted average wherever the reserved border
/// ring leaves a full neighborhood, and the input value passed through
/// unchanged on the ring itself.
pub open spec fn smooth_of(s: Seq<Seq<i64>>, h: int, w: int) -> Seq<Seq<i64>> {
    Seq::new(
        h as nat,
        |i: int|
            Seq::new(
                w as nat,
                |j: int|
                    if interior(h, w, i, j) {
                        gauss_at(s, i, j) as i64
                    } else {
                        s[i][j]
                    },
            ),
    )
}

/// One smoothed cell: the kernel applied at an interior position.
#[verifier::rlimit(60)]
fn gauss_pixel(m: &Mat, i: usize, j: usize) -> (v: i64)
    requires
        mat_wf(*m),
        mat_bounded(*m, 0, 255),
        interior(mat_seq(*m).len() as int, mat_width(*m) as int, i as int, j as int),
    ensures
        v == gauss_at(mat_seq(*m), i as int, j as int),
        0 <= v <= 255,
{
    // Reading the dimensions pins them to machine words, so the neighbor
    // indices below stay within usize.
    let h = m.rows();
    let w = m.cols();
    let s = 2 * m.get(i - 2, j - 2) + 4 * m.get(i - 2, j - 1) + 5 * m.get(i - 2, j) + 4 * m.get(
        i - 2,
        j + 1,
    ) + 2 * m.get(i - 2, j + 2) + 4 * m.get(i - 1, j - 2) + 9 * m.get(i - 1, j - 1) + 12 * m.get(
        i - 1,
        j,
    ) + 9 * m.get(i - 1, j + 1) + 4 * m.get(i - 1, j + 2) + 5 * m.get(i, j - 2) + 12 * m.get(
        i,
        j - 1,
    ) + 15 * m.get(i, j) + 12 * m.get(i, j + 1) + 5 * m.get(i, j + 2) + 4 * m.get(i + 1, j - 2) + 9
        * m.get(i + 1, j - 1) + 12 * m.get(i + 1, j) + 9 * m.get(i + 1, j + 1) + 4 * m.get(
        i + 1,
        j + 2,
    ) + 2 * m.get(i + 2, j - 2) + 4 * m.get(i + 2, j - 1) + 5 * m.get(i + 2, j) + 4 * m.get(
        i + 2,
        j + 1,
    ) + 2 * m.get(i + 2, j + 2);
    s / 159
}

/// Smoothing filter: denoises the luminance matrix with the fixed 5 x 5
/// kernel, leaving the two-cell border ring untouched.
#[verifier::loop_isolation(false)]
pub fn apply_gaussian_filter(m: &Mat) -> (out: Mat)
    requires
        mat_wf(*m),
        mat_small(*m),
        mat_bounded(*m, 0, 255),
    ensures
        mat_seq(out).len() == mat_seq(*m).len(),
        mat_width(out) == mat_width(*m),
        mat_wf(out),
        mat_small(out),
        mat_bounded(out, 0, 255),
        mat_seq(out) == smooth_of(mat_seq(*m), mat_seq(*m).len() as int, mat_width(*m) as int),
        forall|i: int, j: int|
            0 <= i < mat_seq(*m).len() && 0 <= j < mat_width(*m) && !interior(
                mat_seq(*m).len() as int,
                mat_width(*m) as int,
                i,
                j,
            ) ==> mat_seq(out)[i][j] == mat_seq(*m)[i][j],
{
    let h = m.rows();
    let w = m.cols();
    let ghost target = smooth_of(mat_seq(*m), h as int, w as int);
    let mut out = Mat::new(h, w, 0);
    for i in 0..h
        invariant
            mat_seq(out).len() == h,
            mat_width(out) == w,
            mat_wf(out),
            mat_bounded(out, 0, 255),
            forall|r: int, c: int|
                0 <= r < i && 0 <= c < w ==> mat_seq(out)[r][c] == target[r][c],
    {
        for j in 0..w
            invariant
                mat_seq(out).len() == h,
                mat_width(out) == w,
                mat_wf(out),
                mat_bounded(out, 0, 255),
                forall|r: int, c: int|
                    0 <= r < i && 0 <= c < w ==> mat_seq(out)[r][c] == target[r][c],
                forall|c: int| 0 <= c < j ==> mat_seq(out)[i as int][c] == target[i as int][c],
        {
            let v: i64 = if 2 <= i && 2 <= j && h >= 5 && w >= 5 && i <= h - 3 && j <= w - 3 {
                gauss_pixel(m, i, j)
            } else {
                m.get(i, j)
            };
            out.set(i, j, v);
        }
    }
    proof {
        assert forall|r: int| 0 <= r < h implies mat_seq(out)[r] =~= target[r] by {
        }
        assert(mat_seq(out) =~= target);
    }
    out
}

} // verus!
