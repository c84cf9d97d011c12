use playbridge::geometry::{map_point, map_x, map_y};

#[test]
fn map_identity_window() {
    // A window of exactly the virtual size maps every coordinate to itself.
    assert_eq!(map_x(0, 1280), 0);
    assert_eq!(map_x(1, 1280), 1);
    assert_eq!(map_x(640, 1280), 640);
    assert_eq!(map_x(1280, 1280), 1280);
    assert_eq!(map_y(0, 720), 0);
    assert_eq!(map_y(720, 720), 720);
}

#[test]
fn map_scales_with_ceiling() {
    // 640 / 1280 * 800 = 400 exactly; 1 / 1280 * 800 = 0.625, rounded up.
    assert_eq!(map_x(640, 800), 400);
    assert_eq!(map_x(1, 800), 1);
    assert_eq!(map_x(1280, 800), 800);
    // 1 / 720 * 600 = 0.833..., rounded up; 360 / 720 * 600 = 300 exactly.
    assert_eq!(map_y(1, 600), 1);
    assert_eq!(map_y(360, 600), 300);
    assert_eq!(map_y(720, 600), 600);
}

#[test]
fn map_stays_inside_window() {
    for &(w, h) in &[(1i32, 1i32), (3, 7), (800, 600), (1920, 1080), (65535, 65535)] {
        for &(x, y) in &[(0i32, 0i32), (1, 1), (640, 360), (1280, 720)] {
            let nx = map_x(x, w);
            let ny = map_y(y, h);
            assert!(0 <= nx && nx <= w);
            assert!(0 <= ny && ny <= h);
            if x > 0 {
                assert!(nx > 0);
            }
            if y > 0 {
                assert!(ny > 0);
            }
        }
    }
}

#[test]
fn map_empty_window_collapses_to_origin() {
    // The empty-handle path queries a zero-sized client area.
    assert_eq!(map_x(640, 0), 0);
    assert_eq!(map_y(360, 0), 0);
    assert_eq!(map_point(640, 360, 0, 0), 0);
}

#[test]
fn map_point_packs_low_x_high_y() {
    assert_eq!(map_point(1280, 720, 800, 600), 600 * 0x10000 + 800);
    assert_eq!(map_point(100, 200, 1280, 720), 200 * 0x10000 + 100);
    assert_eq!(map_point(0, 0, 800, 600), 0);
}
