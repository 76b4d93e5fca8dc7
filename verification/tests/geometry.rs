use smooth_cursor::corners::{corners_from_edges, Corner, TrailQuad};
use smooth_cursor::shape::{cursor_box, CursorBox, CursorShape, Span, CURSOR_STROKE_PX};
use smooth_cursor::trail::{select_corners, select_trail_corners, smear_outline, Heading};

fn unit_quad() -> TrailQuad<(i32, i32)> {
    TrailQuad::from_corners(corners_from_edges(0, 0, 10, 20))
}

#[test]
fn corners_are_listed_clockwise_from_top_left() {
    let corners = corners_from_edges(1.5f32, 2.0, 9.5, 22.0);
    assert_eq!(corners, [(1.5, 2.0), (9.5, 2.0), (9.5, 22.0), (1.5, 22.0)]);
}

#[test]
fn from_corners_names_each_point() {
    let quad = TrailQuad::from_corners(['a', 'b', 'c', 'd']);
    assert_eq!(quad.top_left, 'a');
    assert_eq!(quad.top_right, 'b');
    assert_eq!(quad.bottom_right, 'c');
    assert_eq!(quad.bottom_left, 'd');
}

#[test]
fn trail_anchors_moving_right_and_down() {
    let quad = unit_quad();
    let heading = Heading { rightward: true, downward: true };
    assert_eq!(select_corners(quad, heading), ((0, 20), (10, 20), (0, 0), (10, 0)));
    assert_eq!(select_trail_corners(quad, heading), ((0, 20), (10, 20), (0, 0)));
}

#[test]
fn trail_anchors_moving_right_and_up() {
    let quad = unit_quad();
    let heading = Heading { rightward: true, downward: false };
    assert_eq!(select_corners(quad, heading), ((0, 0), (0, 20), (10, 0), (10, 20)));
}

#[test]
fn trail_anchors_moving_left_and_down() {
    let quad = unit_quad();
    let heading = Heading { rightward: false, downward: true };
    assert_eq!(select_corners(quad, heading), ((10, 20), (10, 0), (0, 20), (0, 0)));
}

#[test]
fn trail_anchors_moving_left_and_up() {
    let quad = unit_quad();
    let heading = Heading { rightward: false, downward: false };
    assert_eq!(select_corners(quad, heading), ((10, 0), (0, 0), (10, 20), (0, 20)));
    assert_eq!(select_trail_corners(quad, heading), ((10, 0), (0, 0), (10, 20)));
}

#[test]
fn trail_anchors_are_four_different_corners_with_diagonal_pairs() {
    let quad = unit_quad();
    for rightward in [false, true] {
        for downward in [false, true] {
            let (p1, p2, p3, p4) = select_corners(quad, Heading { rightward, downward });
            let mut all = vec![p1, p2, p3, p4];
            all.sort();
            assert_eq!(all, vec![(0, 0), (0, 20), (10, 0), (10, 20)]);
            assert_eq!((p1.0 + p4.0, p1.1 + p4.1), (10, 20));
            assert_eq!((p2.0 + p3.0, p2.1 + p3.1), (10, 20));
        }
    }
}

#[test]
fn bar_cursor_is_a_stroke_wide_and_a_line_high() {
    assert_eq!(
        cursor_box(CursorShape::Bar),
        CursorBox { width: Span::Stroke, height: Span::LineHeight, on_line_bottom: false }
    );
}

#[test]
fn block_and_hollow_cursors_cover_the_cell() {
    let expected = CursorBox { width: Span::BlockWidth, height: Span::LineHeight, on_line_bottom: false };
    assert_eq!(cursor_box(CursorShape::Block), expected);
    assert_eq!(cursor_box(CursorShape::Hollow), expected);
}

#[test]
fn underline_cursor_sits_on_the_line_bottom() {
    assert_eq!(
        cursor_box(CursorShape::Underline),
        CursorBox { width: Span::BlockWidth, height: Span::Stroke, on_line_bottom: true }
    );
}

#[test]
fn smear_outline_goes_round_the_live_cursor() {
    let outline = smear_outline('h', 'a', 'b', ('1', '2', '3', '4'));
    assert_eq!(outline, ['h', 'a', '2', '4', '3', 'b']);
}

#[test]
fn cursor_stroke_is_two_pixels() {
    assert_eq!(CURSOR_STROKE_PX, 2);
}
