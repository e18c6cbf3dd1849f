use crate::gradient::{dir_of, magsq_of, sobel_gradient};
use crate::interior;
use crate::mat::{mat_bounded, mat_seq, mat_small, mat_wf, mat_width, Mat};
use vstd::prelude::*;

verus! {

/// The two neighbor offsets, as (row, column) steps, that a cell is
/// compared against for its quantized direction. The 90 and 135 degree
/// rows share one diagonal pair, as the reference detector's table does.
pub open spec fn nbr_off(a: int) -> ((int, int), (int, int)) {
    if a == 45 {
        ((0int, 1int), (0int, -1int))
    } else if a == 90 || a == 135 {
        ((-1int, -1int), (1int, 1int))
    } else {
        ((-1int, 0int), (1int, 0int))
    }
}

/// The cell's strength strictly exceeds both neighbor strengths along its
/// quantized direction.
pub open spec fn is_local_max(mag: Seq<Seq<i64>>, i: int, j: int, a: int) -> bool {
    let o = nbr_off(a);
    mag[i][j] > mag[i + o.0.0][j + o.0.1] && mag[i][j] > mag[i + o.1.0][j + o.1.1]
}

/// The binary edge matrix: 255 exactly where an interior cell's squared
/// strength exceeds the squared threshold (10 squared is 100) and is a
/// local maximum along its direction; 0 everywhere else, the reserved
/// ring included.
pub open spec fn edge_of(mag: Seq<Seq<i64>>, dir: Seq<Seq<i64>>, h: int, w: int) -> Seq<Seq<i64>> {
    Seq::new(
        h as nat,
        |i: int|
            Seq::new(
                w as nat,
                |j: int|
                    if interior(h, w, i, j) && mag[i][j] > 100 && is_local_max(
                        mag,
                        i,
                        j,
                        dir[i][j] as int,
                    ) {
                        255i64
                    } else {
                        0i64
                    },
            ),
    )
}

/// Whether the strength at column x, row y beats both of its neighbors
/// along the compared direction.
pub fn is_edge_pixel(current_x: usize, current_y: usize, strength: &Mat, compare_angle: i64) -> (r:
    bool)
    requires
        mat_wf(*strength),
        1 <= current_y,
        current_y + 1 < mat_seq(*strength).len(),
        1 <= current_x,
        current_x + 1 < mat_width(*strength),
    ensures
        r == is_local_max(
            mat_seq(*strength),
            current_y as int,
            current_x as int,
            compare_angle as int,
        ),
{
    // Reading the dimensions pins them to machine words, so the neighbor
    // indices below stay within usize.
    let h = strength.rows();
    let w = strength.cols();
    let current = strength.get(current_y, current_x);
    let compare1: i64;
    let compare2: i64;
    if compare_angle == 45 {
        compare1 = strength.get(current_y, current_x + 1);
        compare2 = strength.get(current_y, current_x - 1);
    } else if compare_angle == 90 || compare_angle == 135 {
        compare1 = strength.get(current_y - 1, current_x - 1);
        compare2 = strength.get(current_y + 1, current_x + 1);
    } else {
        compare1 = strength.get(current_y - 1, current_x);
        compare2 = strength.get(current_y + 1, current_x);
    }
    current > compare1 && current > compare2
}

/// Edge selection: estimates the gradient of the smoothed matrix, then
/// keeps exactly the interior cells whose strength clears the threshold
/// and peaks along their quantized direction, as 255 in a binary matrix.
#[verifier::loop_isolation(false)]
pub fn get_edge(m: &Mat) -> (out: Mat)
    requires
        mat_wf(*m),
        mat_small(*m),
        mat_bounded(*m, 0, 255),
    ensures
        mat_seq(out).len() == mat_seq(*m).len(),
        mat_width(out) == mat_width(*m),
        mat_wf(out),
        mat_small(out),
        mat_bounded(out, 0, 255),
        mat_seq(out) == edge_of(
            magsq_of(mat_seq(*m), mat_seq(*m).len() as int, mat_width(*m) as int),
            dir_of(mat_seq(*m), mat_seq(*m).len() as int, mat_width(*m) as int),
            mat_seq(*m).len() as int,
            mat_width(*m) as int,
        ),
        forall|i: int, j: int|
            0 <= i < mat_seq(out).len() && 0 <= j < mat_width(out) ==> mat_seq(out)[i][j] == 0
                || mat_seq(out)[i][j] == 255,
        forall|i: int, j: int|
            0 <= i < mat_seq(out).len() && 0 <= j < mat_width(out) && !interior(
                mat_seq(out).len() as int,
                mat_width(out) as int,
                i,
                j,
            ) ==> mat_seq(out)[i][j] == 0,
{
    let h = m.rows();
    let w = m.cols();
    let (mag, dir) = sobel_gradient(m);
    let ghost target = edge_of(mat_seq(mag), mat_seq(dir), h as int, w as int);
    let mut out = Mat::new(h, w, 0);
    for i in 0..h
        invariant
            mat_seq(out).len() == h,
            mat_width(out) == w,
            mat_wf(out),
            mat_bounded(out, 0, 255),
            forall|r: int, c: int|
                0 <= r < i && 0 <= c < w ==> mat_seq(out)[r][c] == target[r][c],
    {
        for j in 0..w
            invariant
                mat_seq(out).len() == h,
                mat_width(out) == w,
                mat_wf(out),
                mat_bounded(out, 0, 255),
                forall|r: int, c: int|
                    0 <= r < i && 0 <= c < w ==> mat_seq(out)[r][c] == target[r][c],
                forall|c: int| 0 <= c < j ==> mat_seq(out)[i as int][c] == target[i as int][c],
        {
            let v: i64 = if 2 <= i && 2 <= j && h >= 5 && w >= 5 && i <= h - 3 && j <= w - 3 {
                let strength = mag.get(i, j);
                if strength > 100 && is_edge_pixel(j, i, &mag, dir.get(i, j)) {
                    255
                } else {
                    0
                }
            } else {
                0
            };
            out.set(i, j, v);
        }
    }
    proof {
        assert forall|r: int| 0 <= r < h implies mat_seq(out)[r] =~= target[r] by {
        }
        assert(mat_seq(out) =~= target);
    }
    out
}

} // verus!
