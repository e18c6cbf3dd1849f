use edge_detect::capture::{step, CameraAction, CameraEvent, CaptureState};
use edge_detect::edges::is_edge_pixel;
use edge_detect::gradient::get_rough_angle;
use edge_detect::gray::luminance;
use edge_detect::mat::Mat;

#[test]
fn luminance_weights_and_truncation() {
    assert_eq!(luminance(0, 0, 0), 0);
    assert_eq!(luminance(255, 255, 255), 255);
    assert_eq!(luminance(100, 50, 25), 62);
    assert_eq!(luminance(10, 20, 30), 18);
    assert_eq!(luminance(255, 0, 0), 76);
    assert_eq!(luminance(0, 255, 0), 150);
    assert_eq!(luminance(0, 0, 255), 28);
}

#[test]
fn rough_angle_buckets() {
    // No gradient at all leaves the default direction.
    assert_eq!(get_rough_angle(0, 0), 0);
    // A zero vertical response saturates the ratio to a right angle.
    assert_eq!(get_rough_angle(7, 0), 90);
    assert_eq!(get_rough_angle(-7, 0), 90);
    // A zero horizontal response is flat.
    assert_eq!(get_rough_angle(0, 9), 0);
    // Ratio 1 (45 degrees) and -1 (-45 degrees).
    assert_eq!(get_rough_angle(1, 1), 45);
    assert_eq!(get_rough_angle(-1, -1), 45);
    assert_eq!(get_rough_angle(-1, 1), 135);
    assert_eq!(get_rough_angle(1, -1), 135);
    // Ratio 1/2: about 26.6 degrees, still in the 45 bucket.
    assert_eq!(get_rough_angle(1, 2), 45);
    // Ratio 1/3: about 18.4 degrees, inside the flat bucket.
    assert_eq!(get_rough_angle(1, 3), 0);
    // Ratio 2: about 63.4 degrees, in the 45 bucket.
    assert_eq!(get_rough_angle(2, 1), 45);
    // Ratio 3: about 71.6 degrees, past the 67.5 boundary.
    assert_eq!(get_rough_angle(3, 1), 90);
    assert_eq!(get_rough_angle(-3, 1), 90);
    assert_eq!(get_rough_angle(3, -1), 90);
}

fn strength_fixture() -> Mat {
    // 3 x 3 strengths:
    //   9 1 5
    //   2 8 4
    //   7 3 6
    let vals: [[i64; 3]; 3] = [[9, 1, 5], [2, 8, 4], [7, 3, 6]];
    let mut m = Mat::new(3, 3, 0);
    for i in 0..3 {
        for j in 0..3 {
            m.set(i, j, vals[i][j]);
        }
    }
    m
}

#[test]
fn edge_pixel_compares_along_each_direction() {
    let m = strength_fixture();
    // 45 degrees: row neighbors (1,2) = 4 and (1,0) = 2; center 8 beats both.
    assert!(is_edge_pixel(1, 1, &m, 45));
    // 90 and 135 degrees share the diagonal pair (0,0) = 9 and (2,2) = 6.
    assert!(!is_edge_pixel(1, 1, &m, 90));
    assert!(!is_edge_pixel(1, 1, &m, 135));
    // Default direction: column neighbors (0,1) = 1 and (2,1) = 3.
    assert!(is_edge_pixel(1, 1, &m, 0));
}

#[test]
fn edge_pixel_requires_strict_maximum() {
    let mut m = Mat::new(3, 3, 0);
    m.set(0, 1, 5);
    m.set(1, 1, 5);
    m.set(2, 1, 1);
    // Ties with a neighbor are not edges.
    assert!(!is_edge_pixel(1, 1, &m, 0));
}

#[test]
fn capture_lifecycle_transitions() {
    let (s, a) = step(CaptureState::Idle, CameraEvent::ToggleCamera);
    assert_eq!(s, CaptureState::Capturing);
    assert_eq!(a, CameraAction::OpenAndSchedule);
    let (s, a) = step(CaptureState::Capturing, CameraEvent::FrameTick);
    assert_eq!(s, CaptureState::Capturing);
    assert_eq!(a, CameraAction::CaptureAndRender);
    let (s, a) = step(CaptureState::Capturing, CameraEvent::ToggleCamera);
    assert_eq!(s, CaptureState::Idle);
    assert_eq!(a, CameraAction::Close);
    let (s, a) = step(CaptureState::Idle, CameraEvent::FrameTick);
    assert_eq!(s, CaptureState::Idle);
    assert_eq!(a, CameraAction::Ignore);
    let (s, a) = step(CaptureState::Idle, CameraEvent::Quit);
    assert_eq!(s, CaptureState::Idle);
    assert_eq!(a, CameraAction::Shutdown);
    let (s, a) = step(CaptureState::Capturing, CameraEvent::Quit);
    assert_eq!(s, CaptureState::Capturing);
    assert_eq!(a, CameraAction::Shutdown);
}

#[test]
fn matrix_cells_hold_what_was_set() {
    let mut m = Mat::new(2, 3, 7);
    assert_eq!(m.rows(), 2);
    assert_eq!(m.cols(), 3);
    for i in 0..2 {
        for j in 0..3 {
            assert_eq!(m.get(i, j), 7);
        }
    }
    m.set(1, 2, -4);
    m.set(0, 0, 11);
    assert_eq!(m.get(1, 2), -4);
    assert_eq!(m.get(0, 0), 11);
    assert_eq!(m.get(0, 1), 7);
    assert_eq!(m.get(1, 1), 7);
}
