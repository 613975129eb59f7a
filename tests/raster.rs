use uhouse::raster::{draw_line, point_accept};
use uhouse::vec::Vec2;

fn line(x0: i16, y0: i16, x1: i16, y1: i16) -> Vec<(u32, u32)> {
    let mut pixels = Vec::new();
    draw_line(&mut pixels, Vec2 { x: x0, y: y0 }, Vec2 { x: x1, y: y1 });
    pixels
}

#[test]
fn horizontal_line_pixels() {
    let expected: Vec<(u32, u32)> = (0..=10).map(|x| (x, 0)).collect();
    assert_eq!(line(0, 0, 10, 0), expected);
    assert_eq!(line(10, 0, 0, 0), expected);
}

#[test]
fn vertical_line_pixels() {
    let expected: Vec<(u32, u32)> = (0..=10).map(|y| (0, y)).collect();
    assert_eq!(line(0, 0, 0, 10), expected);
    assert_eq!(line(0, 10, 0, 0), expected);
}

#[test]
fn diagonal_line_pixels() {
    let expected: Vec<(u32, u32)> = (0..=5).map(|i| (i, i)).collect();
    assert_eq!(line(0, 0, 5, 5), expected);
}

#[test]
fn shallow_and_steep_lines() {
    assert_eq!(line(0, 0, 7, 3), vec![(0, 0), (1, 0), (2, 1), (3, 1), (4, 2), (5, 2), (6, 3), (7, 3)]);
    assert_eq!(line(3, 7, 1, 0), vec![(1, 0), (1, 1), (2, 2), (2, 3), (2, 4), (2, 5), (3, 6), (3, 7)]);
}

#[test]
fn single_point_line() {
    assert_eq!(line(2, 2, 2, 2), vec![(2, 2)]);
    assert_eq!(line(-1, -1, -1, -1), vec![]);
}

#[test]
fn line_clipped_at_left_edge() {
    assert_eq!(line(-5, 3, 5, 3), vec![(0, 3), (1, 3), (2, 3), (3, 3), (4, 3), (5, 3)]);
}

#[test]
fn line_clipped_at_bottom_right_corner() {
    assert_eq!(line(120, 60, 135, 70), vec![(120, 60), (121, 61), (122, 61), (123, 62), (124, 63), (125, 63)]);
}

#[test]
fn x_is_bounded_by_width_not_height() {
    assert_eq!(line(100, 10, 104, 10), vec![(100, 10), (101, 10), (102, 10), (103, 10), (104, 10)]);
    assert!(point_accept(Vec2 { x: 127, y: 63 }));
    assert!(!point_accept(Vec2 { x: 128, y: 0 }));
    assert!(!point_accept(Vec2 { x: 0, y: 64 }));
    assert!(!point_accept(Vec2 { x: -1, y: 0 }));
    assert!(point_accept(Vec2 { x: 64, y: 0 }));
}

#[test]
fn far_off_screen_lines_emit_nothing_out_of_bounds() {
    let pixels = line(-32768, -32768, 32767, 32767);
    assert_eq!(pixels.len(), 64);
    assert!(pixels.iter().all(|p| p.0 < 128 && p.1 < 64));
    assert_eq!(line(200, 5, 300, 40), vec![]);
}

#[test]
fn draw_line_appends() {
    let mut pixels = vec![(9, 9)];
    draw_line(&mut pixels, Vec2 { x: 0, y: 0 }, Vec2 { x: 1, y: 0 });
    assert_eq!(pixels, vec![(9, 9), (0, 0), (1, 0)]);
}
