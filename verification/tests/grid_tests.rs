use kmouse::grid::{cell_rect, cell_rect_fits_check, to_client_rect, virtual_screen_rect, Rect};

fn rect(left: i32, top: i32, right: i32, bottom: i32) -> Rect {
    Rect { left, top, right, bottom }
}

#[test]
fn cell_numbers_run_left_to_right_top_to_bottom() {
    let r = rect(0, 0, 900, 900);
    assert_eq!(cell_rect(r, 1), rect(0, 0, 300, 300));
    assert_eq!(cell_rect(r, 3), rect(600, 0, 900, 300));
    assert_eq!(cell_rect(r, 5), rect(300, 300, 600, 600));
    assert_eq!(cell_rect(r, 7), rect(0, 600, 300, 900));
    assert_eq!(cell_rect(r, 9), rect(600, 600, 900, 900));
}

#[test]
fn cell_zero_is_the_first_cell() {
    let r = rect(10, 20, 310, 620);
    assert_eq!(cell_rect(r, 0), cell_rect(r, 1));
}

#[test]
fn cells_on_negative_desktop_coordinates() {
    let r = rect(-1920, 0, 1920, 1080);
    assert_eq!(cell_rect(r, 3), rect(640, 0, 1920, 360));
    assert_eq!(cell_rect(r, 1), rect(-1920, 0, -640, 360));
}

#[test]
fn uneven_sizes_round_down() {
    let r = rect(0, 0, 100, 10);
    assert_eq!(cell_rect(r, 1), rect(0, 0, 33, 3));
    assert_eq!(cell_rect(r, 2), rect(33, 0, 66, 3));
    assert_eq!(cell_rect(r, 9), rect(66, 6, 100, 10));
}

#[test]
fn inverted_rect_divides_toward_zero() {
    let r = rect(0, 0, -10, 0);
    assert_eq!(cell_rect(r, 2), rect(-3, 0, -6, 0));
}

#[test]
fn cells_tile_the_rect() {
    let r = rect(-37, 11, 1000, 707);
    for n in 1u8..=9 {
        let c = cell_rect(r, n);
        if n % 3 != 0 {
            let next = cell_rect(r, n + 1);
            assert_eq!(c.right, next.left);
            assert_eq!(c.top, next.top);
        }
        if n <= 6 {
            assert_eq!(c.bottom, cell_rect(r, n + 3).top);
        }
        assert!(r.left <= c.left && c.right <= r.right && r.top <= c.top && c.bottom <= r.bottom);
    }
    assert_eq!(cell_rect(r, 1).left, r.left);
    assert_eq!(cell_rect(r, 9).right, r.right);
    assert_eq!(cell_rect(r, 9).bottom, r.bottom);
}

#[test]
fn client_rect_subtracts_desktop_origin() {
    let screen = rect(-1920, 0, 1920, 1080);
    assert_eq!(to_client_rect(rect(-1000, 50, -500, 150), screen), rect(920, 50, 1420, 150));
    assert_eq!(to_client_rect(screen, screen), rect(0, 0, 3840, 1080));
}

#[test]
fn virtual_screen_from_metrics() {
    assert_eq!(virtual_screen_rect(-1920, -200, 3840, 1280), rect(-1920, -200, 1920, 1080));
}

#[test]
fn cell_fit_check() {
    assert!(cell_rect_fits_check(rect(0, 0, 1920, 1080), 9));
    assert!(!cell_rect_fits_check(rect(0, 0, 1_000_000_000, 10), 3));
    assert!(!cell_rect_fits_check(rect(i32::MIN, 0, i32::MAX, 10), 1));
    assert!(cell_rect_fits_check(rect(0, 0, 1_000_000_000, 10), 1));
}
