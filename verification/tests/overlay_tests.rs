use kmouse::grid::{cell_rect, Grid, Rect};
use kmouse::overlay::{
    centered_text_origin, client_area, grid_layout, grid_layout_fits_check, grid_lines,
    paint_fits_check, paint_layout, window_placement, Placement, Segment,
};

fn rect(left: i32, top: i32, right: i32, bottom: i32) -> Rect {
    Rect { left, top, right, bottom }
}

#[test]
fn overlay_covers_the_desktop() {
    let screen = rect(-1920, -100, 1920, 1080);
    assert_eq!(window_placement(screen), Placement { x: -1920, y: -100, width: 3840, height: 1180 });
    assert_eq!(client_area(screen), rect(0, 0, 3840, 1180));
}

#[test]
fn inner_grid_lines() {
    let lines = grid_lines(rect(0, 0, 90, 45));
    assert_eq!(lines.len(), 16);
    for i in 1..=8i32 {
        let k = 2 * (i as usize - 1);
        assert_eq!(lines[k], Segment { x1: 10 * i, y1: 0, x2: 10 * i, y2: 45 });
        assert_eq!(lines[k + 1], Segment { x1: 0, y1: 5 * i, x2: 90, y2: 5 * i });
    }
    let lines = grid_lines(rect(10, 20, 110, 120));
    assert_eq!(lines[0], Segment { x1: 21, y1: 20, x2: 21, y2: 120 });
    assert_eq!(lines[15], Segment { x1: 10, y1: 108, x2: 110, y2: 108 });
}

#[test]
fn cell_borders_are_lines_three_and_six() {
    let r = rect(0, 0, 900, 450);
    let lines = grid_lines(r);
    assert_eq!(lines[4].x1, cell_rect(r, 2).left);
    assert_eq!(lines[10].x1, cell_rect(r, 3).left);
    assert_eq!(lines[5].y1, cell_rect(r, 4).top);
    assert_eq!(lines[11].y1, cell_rect(r, 7).top);
}

#[test]
fn centered_text() {
    assert_eq!(centered_text_origin(rect(0, 0, 100, 50), 1), (46, 17));
    assert_eq!(centered_text_origin(rect(0, 0, 100, 50), 5), (30, 17));
    assert_eq!(centered_text_origin(rect(20, 30, 24, 35), 1), (20, 30));
    assert_eq!(centered_text_origin(rect(20, 30, 29, 48), 1), (20, 31));
}

#[test]
fn layout_labels_each_cell() {
    let r = rect(0, 0, 900, 600);
    let layout = grid_layout(r);
    assert_eq!(layout.frame, r);
    assert_eq!(layout.lines.len(), 16);
    assert_eq!(layout.labels.len(), 9);
    for (i, label) in layout.labels.iter().enumerate() {
        let n = (i + 1) as u8;
        assert_eq!(label.number, n);
        let cell = cell_rect(r, n);
        assert_eq!((label.x, label.y), centered_text_origin(cell, 1));
    }
    assert_eq!((layout.labels[0].x, layout.labels[0].y), (146, 92));
    assert_eq!((layout.labels[8].x, layout.labels[8].y), (746, 492));
}

#[test]
fn paint_moves_grid_into_client_coordinates() {
    let screen = rect(-1920, 0, 1920, 1080);
    let grid = Grid { rect: rect(-1920, 0, -640, 360), depth: 1 };
    assert!(paint_fits_check(screen, Some(grid)));
    let p = paint_layout(screen, Some(grid));
    assert_eq!(p.client, rect(0, 0, 3840, 1080));
    let g = p.grid.unwrap();
    assert_eq!(g.frame, rect(0, 0, 1280, 360));
    assert_eq!(g.lines[0], Segment { x1: 142, y1: 0, x2: 142, y2: 360 });

    let p = paint_layout(screen, None);
    assert!(p.grid.is_none());
}

#[test]
fn paint_fit_check() {
    assert!(paint_fits_check(rect(0, 0, 1920, 1080), None));
    assert!(!paint_fits_check(rect(i32::MIN, 0, i32::MAX, 1080), None));
    let far = Grid { rect: rect(i32::MAX - 10, 0, i32::MAX, 10), depth: 0 };
    assert!(!paint_fits_check(rect(-10, 0, 10, 10), Some(far)));
    assert!(grid_layout_fits_check(rect(0, 0, 900, 600)));
    assert!(!grid_layout_fits_check(rect(i32::MIN, 0, i32::MAX, 600)));
}
