use edge_detect::edges::get_edge;
use edge_detect::expand::mat_to_rgb;
use edge_detect::gray::rgb_to_gray_mat;
use edge_detect::mat::Mat;
use edge_detect::pipeline::{run_pipeline, try_run_pipeline};
use edge_detect::smooth::apply_gaussian_filter;

fn solid_frame(h: usize, w: usize, r: u8, g: u8, b: u8) -> Vec<u8> {
    let mut buf: Vec<u8> = Vec::new();
    for _ in 0..h * w {
        buf.push(r);
        buf.push(g);
        buf.push(b);
    }
    buf
}

fn gray_frame_from(rows: &[Vec<u8>]) -> (Vec<u8>, usize, usize) {
    let h = rows.len();
    let w = rows[0].len();
    let mut buf: Vec<u8> = Vec::new();
    for row in rows {
        for &v in row {
            buf.push(v);
            buf.push(v);
            buf.push(v);
        }
    }
    (buf, h, w)
}

#[test]
fn black_frame_has_no_edges() {
    let h = 8;
    let w = 8;
    let buf = solid_frame(h, w, 0, 0, 0);
    let out = run_pipeline(&buf, h, w);
    assert_eq!(out.len(), h * w * 3);
    for &v in &out {
        assert_eq!(v, 0);
    }
}

#[test]
fn uniform_frame_has_no_edges() {
    let h = 9;
    let w = 7;
    let buf = solid_frame(h, w, 90, 60, 30);
    let out = run_pipeline(&buf, h, w);
    assert_eq!(out.len(), h * w * 3);
    for &v in &out {
        assert_eq!(v, 0);
    }
}

#[test]
fn checked_entry_rejects_mismatched_shapes() {
    let h = 6;
    let w = 6;
    let buf = solid_frame(h, w, 1, 2, 3);
    assert!(try_run_pipeline(&buf, h, w).is_some());
    assert_eq!(try_run_pipeline(&buf, h, w).unwrap(), run_pipeline(&buf, h, w));
    // One byte short, swapped shape, and an empty buffer are all rejected.
    assert!(try_run_pipeline(&buf[..buf.len() - 1], h, w).is_none());
    assert!(try_run_pipeline(&buf, h, w + 1).is_none());
    assert!(try_run_pipeline(&[], h, w).is_none());
    // The degenerate empty shape is accepted and yields an empty rendering.
    let out = try_run_pipeline(&[], 0, 0);
    assert_eq!(out.unwrap().len(), 0);
}

#[test]
fn shapes_are_preserved_through_every_stage() {
    let h = 10;
    let w = 6;
    let buf = solid_frame(h, w, 10, 200, 30);
    let g = rgb_to_gray_mat(&buf, h, w);
    assert_eq!(g.rows(), h);
    assert_eq!(g.cols(), w);
    let sm = apply_gaussian_filter(&g);
    assert_eq!(sm.rows(), h);
    assert_eq!(sm.cols(), w);
    let e = get_edge(&sm);
    assert_eq!(e.rows(), h);
    assert_eq!(e.cols(), w);
    let out = mat_to_rgb(&e);
    assert_eq!(out.len(), h * w * 3);
}

#[test]
fn expand_then_reduce_recovers_every_cell() {
    let h = 4;
    let w = 5;
    let mut m = Mat::new(h, w, 0);
    for i in 0..h {
        for j in 0..w {
            m.set(i, j, (i * 50 + j * 7) as i64);
        }
    }
    let buf = mat_to_rgb(&m);
    assert_eq!(buf.len(), h * w * 3);
    let back = rgb_to_gray_mat(&buf, h, w);
    for i in 0..h {
        for j in 0..w {
            assert_eq!(back.get(i, j), (i * 50 + j * 7) as i64);
        }
    }
}

#[test]
fn vertical_step_edge_marks_the_transition_column() {
    // Left half black, right half white, with a single transition column
    // of intermediate intensity at column 6.
    let h = 11;
    let w = 13;
    let mut rows: Vec<Vec<u8>> = Vec::new();
    for _ in 0..h {
        let mut row: Vec<u8> = Vec::new();
        for j in 0..w {
            row.push(if j < 6 {
                0
            } else if j == 6 {
                128
            } else {
                255
            });
        }
        rows.push(row);
    }
    let (buf, h, w) = gray_frame_from(&rows);
    let out = run_pipeline(&buf, h, w);
    // Away from the ring-adjacent rows, exactly the transition column is
    // marked and nothing else.
    for i in 3..=7 {
        for j in 0..w {
            let v = out[(i * w + j) * 3];
            if j == 6 {
                assert_eq!(v, 255);
            } else {
                assert_eq!(v, 0);
            }
        }
    }
    // The reserved border ring never holds an edge.
    for i in 0..h {
        for j in 0..w {
            if i < 2 || i + 2 >= h || j < 2 || j + 2 >= w {
                assert_eq!(out[(i * w + j) * 3], 0);
            }
        }
    }
    // The full golden output, ring-adjacent artifacts included: the rows
    // next to the reserved ring see the unsmoothed step through the kernel
    // and mark a short horizontal run.
    let expected: Vec<Vec<u8>> = vec![
        vec![0, 0, 0, 0, 0, 0, 0, 0, 0, 0, 0, 0, 0],
        vec![0, 0, 0, 0, 0, 0, 0, 0, 0, 0, 0, 0, 0],
        vec![0, 0, 0, 0, 0, 0, 255, 255, 255, 255, 0, 0, 0],
        vec![0, 0, 0, 0, 0, 0, 255, 0, 0, 0, 0, 0, 0],
        vec![0, 0, 0, 0, 0, 0, 255, 0, 0, 0, 0, 0, 0],
        vec![0, 0, 0, 0, 0, 0, 255, 0, 0, 0, 0, 0, 0],
        vec![0, 0, 0, 0, 0, 0, 255, 0, 0, 0, 0, 0, 0],
        vec![0, 0, 0, 0, 0, 0, 255, 0, 0, 0, 0, 0, 0],
        vec![0, 0, 0, 255, 255, 255, 255, 0, 0, 0, 0, 0, 0],
        vec![0, 0, 0, 0, 0, 0, 0, 0, 0, 0, 0, 0, 0],
        vec![0, 0, 0, 0, 0, 0, 0, 0, 0, 0, 0, 0, 0],
    ];
    for i in 0..h {
        for j in 0..w {
            for t in 0..3 {
                assert_eq!(out[(i * w + j) * 3 + t], expected[i][j]);
            }
        }
    }
}

#[test]
fn smoothing_golden_fixture() {
    // A 7 x 7 quadratic ramp: cell (i, j) holds (i + j) squared. The border
    // ring passes through; the nine interior cells take the weighted
    // average, computed by hand from the 5 x 5 kernel with divisor 159.
    let h = 7;
    let w = 7;
    let mut m = Mat::new(h, w, 0);
    for i in 0..h {
        for j in 0..w {
            m.set(i, j, ((i + j) * (i + j)) as i64);
        }
    }
    let sm = apply_gaussian_filter(&m);
    let expected: Vec<Vec<i64>> = vec![
        vec![0, 1, 4, 9, 16, 25, 36],
        vec![1, 4, 9, 16, 25, 36, 49],
        vec![4, 9, 18, 27, 38, 49, 64],
        vec![9, 16, 27, 38, 51, 64, 81],
        vec![16, 25, 38, 51, 66, 81, 100],
        vec![25, 36, 49, 64, 81, 100, 121],
        vec![36, 49, 64, 81, 100, 121, 144],
    ];
    for i in 0..h {
        for j in 0..w {
            assert_eq!(sm.get(i, j), expected[i][j]);
        }
    }
}

#[test]
fn border_ring_passes_through_smoothing_and_zeroes_edges() {
    let h = 8;
    let w = 9;
    let mut rows: Vec<Vec<u8>> = Vec::new();
    for i in 0..h {
        let mut row: Vec<u8> = Vec::new();
        for j in 0..w {
            row.push(((i * 29 + j * 13) % 256) as u8);
        }
        rows.push(row);
    }
    let (buf, h, w) = gray_frame_from(&rows);
    let g = rgb_to_gray_mat(&buf, h, w);
    let sm = apply_gaussian_filter(&g);
    let e = get_edge(&sm);
    for i in 0..h {
        for j in 0..w {
            if i < 2 || i + 2 >= h || j < 2 || j + 2 >= w {
                assert_eq!(sm.get(i, j), g.get(i, j));
                assert_eq!(e.get(i, j), 0);
            }
        }
    }
}

#[test]
fn output_is_binary() {
    let h = 10;
    let w = 11;
    let mut buf: Vec<u8> = Vec::new();
    for i in 0..h {
        for j in 0..w {
            buf.push(((i * 37 + j * 91) % 256) as u8);
            buf.push(((i * 53 + j * 17) % 256) as u8);
            buf.push(((i * 11 + j * 71) % 256) as u8);
        }
    }
    let out = run_pipeline(&buf, h, w);
    for &v in &out {
        assert!(v == 0 || v == 255);
    }
}
