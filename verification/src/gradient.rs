use crate::interior;
use crate::mat::{mat_bounded, mat_seq, mat_small, mat_wf, mat_width, Mat};
use vstd::prelude::*;

verus! {

/// Horizontal Sobel response at (i, j): the 3 x 3 kernel
/// ```text
/// -1 0 1
/// -2 0 2
/// -1 0 1
/// ```
pub open spec fn sobel_gx(s: Seq<Seq<i64>>, i: int, j: int) -> int {
    (s[i - 1][j + 1] + 2 * s[i][j + 1] + s[i + 1][j + 1]) - (s[i - 1][j - 1] + 2 * s[i][j - 1]
        + s[i + 1][j - 1])
}

/// Vertical Sobel response at (i, j): the 3 x 3 kernel
/// ```text
/// -1 -2 -1
///  0  0  0
///  1  2  1
/// ```
pub open spec fn sobel_gy(s: Seq<Seq<i64>>, i: int, j: int) -> int {
    (s[i + 1][j - 1] + 2 * s[i + 1][j] + s[i + 1][j + 1]) - (s[i - 1][j - 1] + 2 * s[i - 1][j]
        + s[i - 1][j + 1])
}

/// Squared gradient magnitude at (i, j). The squared form orders gradients
/// exactly as their square roots do and keeps the later threshold and
/// neighbor comparisons in whole numbers.
pub open spec fn magsq_val(s: Seq<Seq<i64>>, i: int, j: int) -> int {
    sobel_gx(s, i, j) * sobel_gx(s, i, j) + sobel_gy(s, i, j) * sobel_gy(s, i, j)
}

/// The gradient direction quantized to one of 0, 45, 90 or 135 degrees.
///
/// The continuous direction is `atan(gx / gy)` in degrees, bucketed at the
/// midpoints between the four canonical directions: strictly between 22.5
/// and 67.5 away from zero gives 45 (gradient rising, same signs) or 135
/// (opposite signs), strictly beyond 67.5 gives 90, and the rest, the flat
/// ratios, give 0. A zero `gy` makes the ratio infinite, so the angle
/// saturates to 90 unless `gx` is also zero, which leaves no direction and
/// falls back to 0. The comparisons against `tan(22.5) = sqrt(2) - 1` and
/// `tan(67.5) = sqrt(2) + 1` are decided exactly over integers by squaring:
/// with p = |gx| and q = |gy|, the ratio p/q exceeds sqrt(2) - 1 if and only
/// if (p + q)^2 > 2 q^2, and exceeds sqrt(2) + 1 if and only if p > q and
/// (p - q)^2 > 2 q^2; a rational ratio never equals either bound.
pub open spec fn rough_angle_val(gx: int, gy: int) -> int {
    if gy == 0 {
        if gx == 0 {
            0
        } else {
            90
        }
    } else if gx == 0 {
        0
    } else {
        let p = if gx >= 0 { gx } else { -gx };
        let q = if gy >= 0 { gy } else { -gy };
        if (p + q) * (p + q) <= 2 * q * q {
            0
        } else if p > q && (p - q) * (p - q) > 2 * q * q {
            90
        } else if (gx > 0) == (gy > 0) {
            45
        } else {
            135
        }
    }
}

/// The squared-magnitude field: the Sobel response inside the reserved
/// ring, zero on the ring itself, so border cells are never edges.
pub open spec fn magsq_of(s: Seq<Seq<i64>>, h: int, w: int) -> Seq<Seq<i64>> {
    Seq::new(
        h as nat,
        |i: int|
            Seq::new(
                w as nat,
                |j: int|
                    if interior(h, w, i, j) {
                        magsq_val(s, i, j) as i64
                    } else {
                        0
                    },
            ),
    )
}

/// The quantized-direction field, with the default direction 0 on the
/// reserved ring.
pub open spec fn dir_of(s: Seq<Seq<i64>>, h: int, w: int) -> Seq<Seq<i64>> {
    Seq::new(
        h as nat,
        |i: int|
            Seq::new(
                w as nat,
                |j: int|
                    if interior(h, w, i, j) {
                        rough_angle_val(sobel_gx(s, i, j), sobel_gy(s, i, j)) as i64
                    } else {
                        0
                    },
            ),
    )
}

/// Quantizes a gradient to one of the four canonical directions.
pub fn get_rough_angle(gx: i64, gy: i64) -> (a: i64)
    requires
        -1_000_000 <= gx <= 1_000_000,
        -1_000_000 <= gy <= 1_000_000,
    ensures
        a == rough_angle_val(gx as int, gy as int),
{
    if gy == 0 {
        if gx == 0 {
            0
        } else {
            90
        }
    } else if gx == 0 {
        0
    } else {
        let p: i64 = if gx >= 0 { gx } else { -gx };
        let q: i64 = if gy >= 0 { gy } else { -gy };
        proof {
            assert(0 <= (p + q) * (p + q) <= 4_000_000_000_000 && 0 <= 2 * (q as int) * (q as int)
                <= 2_000_000_000_000 && 0 <= (p - q) * (p - q)
                <= 4_000_000_000_000) by (nonlinear_arith)
                requires
                    0 <= p <= 1_000_000,
                    0 <= q <= 1_000_000,
            ;
        }
        if (p + q) * (p + q) <= 2 * q * q {
            0
        } else if p > q && (p - q) * (p - q) > 2 * q * q {
            90
        } else if (gx > 0) == (gy > 0) {
            45
        } else {
            135
        }
    }
}

/// Both Sobel responses at an interior position.
fn sobel_pixel(m: &Mat, i: usize, j: usize) -> (g: (i64, i64))
    requires
        mat_wf(*m),
        mat_bounded(*m, 0, 255),
        interior(mat_seq(*m).len() as int, mat_width(*m) as int, i as int, j as int),
    ensures
        g.0 == sobel_gx(mat_seq(*m), i as int, j as int),
        g.1 == sobel_gy(mat_seq(*m), i as int, j as int),
        -1020 <= g.0 <= 1020,
        -1020 <= g.1 <= 1020,
{
    // Reading the dimensions pins them to machine words, so the neighbor
    // indices below stay within usize.
    let h = m.rows();
    let w = m.cols();
    let a = m.get(i - 1, j - 1);
    let b = m.get(i - 1, j);
    let c = m.get(i - 1, j + 1);
    let d = m.get(i, j - 1);
    let f = m.get(i, j + 1);
    let g2 = m.get(i + 1, j - 1);
    let h2 = m.get(i + 1, j);
    let k = m.get(i + 1, j + 1);
    let gx = (c + 2 * f + k) - (a + 2 * d + g2);
    let gy = (g2 + 2 * h2 + k) - (a + 2 * b + c);
    (gx, gy)
}

/// Gradient estimation: from the smoothed matrix, the squared-magnitude
/// field and the quantized-direction field, both zero on the reserved ring.
#[verifier::loop_isolation(false)]
pub fn sobel_gradient(m: &Mat) -> (out: (Mat, Mat))
    requires
        mat_wf(*m),
        mat_small(*m),
        mat_bounded(*m, 0, 255),
    ensures
        mat_seq(out.0).len() == mat_seq(*m).len(),
        mat_width(out.0) == mat_width(*m),
        mat_wf(out.0),
        mat_small(out.0),
        mat_seq(out.1).len() == mat_seq(*m).len(),
        mat_width(out.1) == mat_width(*m),
        mat_wf(out.1),
        mat_seq(out.0) == magsq_of(mat_seq(*m), mat_seq(*m).len() as int, mat_width(*m) as int),
        mat_seq(out.1) == dir_of(mat_seq(*m), mat_seq(*m).len() as int, mat_width(*m) as int),
{
    let h = m.rows();
    let w = m.cols();
    let ghost mag_target = magsq_of(mat_seq(*m), h as int, w as int);
    let ghost dir_target = dir_of(mat_seq(*m), h as int, w as int);
    let mut mag = Mat::new(h, w, 0);
    let mut dir = Mat::new(h, w, 0);
    for i in 0..h
        invariant
            mat_seq(mag).len() == h,
            mat_width(mag) == w,
            mat_wf(mag),
            mat_seq(dir).len() == h,
            mat_width(dir) == w,
            mat_wf(dir),
            forall|r: int, c: int|
                0 <= r < i && 0 <= c < w ==> mat_seq(mag)[r][c] == mag_target[r][c],
            forall|r: int, c: int|
                0 <= r < i && 0 <= c < w ==> mat_seq(dir)[r][c] == dir_target[r][c],
    {
        for j in 0..w
            invariant
                mat_seq(mag).len() == h,
                mat_width(mag) == w,
                mat_wf(mag),
                mat_seq(dir).len() == h,
                mat_width(dir) == w,
                mat_wf(dir),
                forall|r: int, c: int|
                    0 <= r < i && 0 <= c < w ==> mat_seq(mag)[r][c] == mag_target[r][c],
                forall|r: int, c: int|
                    0 <= r < i && 0 <= c < w ==> mat_seq(dir)[r][c] == dir_target[r][c],
                forall|c: int| 0 <= c < j ==> mat_seq(mag)[i as int][c] == mag_target[i as int][c],
                forall|c: int| 0 <= c < j ==> mat_seq(dir)[i as int][c] == dir_target[i as int][c],
        {
            if 2 <= i && 2 <= j && h >= 5 && w >= 5 && i <= h - 3 && j <= w - 3 {
                let g = sobel_pixel(m, i, j);
                proof {
                    assert(0 <= (g.0 as int) * (g.0 as int) <= 1_040_400 && 0 <= (g.1 as int) * (
                    g.1 as int) <= 1_040_400) by (nonlinear_arith)
                        requires
                            -1020 <= g.0 <= 1020,
                            -1020 <= g.1 <= 1020,
                    ;
                }
                let strength = g.0 * g.0 + g.1 * g.1;
                let angle = get_rough_angle(g.0, g.1);
                mag.set(i, j, strength);
                dir.set(i, j, angle);
            } else {
                mag.set(i, j, 0);
                dir.set(i, j, 0);
            }
        }
    }
    proof {
        assert forall|r: int| 0 <= r < h implies mat_seq(mag)[r] =~= mag_target[r] by {
        }
        assert(mat_seq(mag) =~= mag_target);
        assert forall|r: int| 0 <= r < h implies mat_seq(dir)[r] =~= dir_target[r] by {
        }
        assert(mat_seq(dir) =~= dir_target);
    }
    (mag, dir)
}

} // verus!
