use snake_game::palette::{Color, DrawCommand};
use snake_game::point::Point;
use snake_game::snake::Snake;

fn p(x: i32, y: i32) -> Point {
    Point { x, y }
}

#[test]
fn wrap_add_moves_within_grid() {
    let r = p(5, 7).wrap_add(p(1, 0), 40, 40);
    assert_eq!(r, p(6, 7));
}

#[test]
fn wrap_add_wraps_right_edge_to_left() {
    let r = p(39, 0).wrap_add(p(1, 0), 40, 40);
    assert_eq!(r, p(0, 0));
}

#[test]
fn wrap_add_wraps_negative_delta_to_high_end() {
    let r = p(0, 5).wrap_add(p(-1, 0), 40, 40);
    assert_eq!(r, p(39, 5));
    let r = p(3, 0).wrap_add(p(0, -1), 40, 40);
    assert_eq!(r, p(3, 39));
}

#[test]
fn move_body_advances_initial_body() {
    let mut body = vec![p(5, 0), p(4, 0), p(3, 0), p(2, 0), p(1, 0), p(0, 0)];
    Snake::move_body(&mut body, p(1, 0), 40, 40);
    assert_eq!(body, vec![p(6, 0), p(5, 0), p(4, 0), p(3, 0), p(2, 0), p(1, 0)]);
}

#[test]
fn move_body_wraps_head_at_boundary() {
    let mut body = vec![p(39, 0), p(38, 0)];
    Snake::move_body(&mut body, p(1, 0), 40, 40);
    assert_eq!(body, vec![p(0, 0), p(39, 0)]);
}

#[test]
fn move_body_preserves_length() {
    let mut body = vec![p(10, 10), p(10, 11), p(10, 12)];
    Snake::move_body(&mut body, p(0, -1), 40, 40);
    assert_eq!(body.len(), 3);
    assert_eq!(body, vec![p(10, 9), p(10, 10), p(10, 11)]);
}

#[test]
fn grow_extends_length_by_one() {
    let mut body = vec![p(5, 5), p(4, 5)];
    Snake::grow(&mut body, p(0, 1), 40, 40);
    assert_eq!(body.len(), 3);
    assert_eq!(body, vec![p(5, 6), p(5, 5), p(4, 5)]);
}

#[test]
fn grow_wraps_at_boundary() {
    let mut body = vec![p(0, 39)];
    Snake::grow(&mut body, p(0, 1), 40, 40);
    assert_eq!(body, vec![p(0, 0), p(0, 39)]);
}

#[test]
fn change_direction_rejects_exact_reversal() {
    let mut dir = p(1, 0);
    Snake::change_direction(&mut dir, p(-1, 0));
    assert_eq!(dir, p(1, 0));

    let mut dir = p(0, -1);
    Snake::change_direction(&mut dir, p(0, 1));
    assert_eq!(dir, p(0, -1));
}

#[test]
fn change_direction_adopts_any_other_proposal() {
    let mut dir = p(1, 0);
    Snake::change_direction(&mut dir, p(0, 1));
    assert_eq!(dir, p(0, 1));

    let mut dir = p(1, 0);
    Snake::change_direction(&mut dir, p(1, 0));
    assert_eq!(dir, p(1, 0));
}

#[test]
fn directional_helpers_build_unit_vectors() {
    let mut dir = p(1, 0);
    Snake::up(&mut dir);
    assert_eq!(dir, p(0, -1));
    Snake::left(&mut dir);
    assert_eq!(dir, p(-1, 0));
    Snake::down(&mut dir);
    assert_eq!(dir, p(0, 1));
    Snake::right(&mut dir);
    assert_eq!(dir, p(1, 0));
}

#[test]
fn directional_helpers_respect_anti_reversal() {
    let mut dir = p(0, 1);
    Snake::up(&mut dir);
    assert_eq!(dir, p(0, 1));

    let mut dir = p(-1, 0);
    Snake::right(&mut dir);
    assert_eq!(dir, p(-1, 0));
}

#[test]
fn overlap_reported_for_duplicate_point() {
    let body = vec![p(2, 2), p(3, 2), p(2, 2)];
    assert!(Snake::is_overlapping_itself(&body));
}

#[test]
fn overlap_absent_for_distinct_points_of_same_length() {
    let body = vec![p(2, 2), p(3, 2), p(4, 2)];
    assert!(!Snake::is_overlapping_itself(&body));
}

#[test]
fn overlap_found_wherever_the_repeat_sits() {
    let body = vec![p(0, 0), p(1, 0), p(1, 0), p(2, 0)];
    assert!(Snake::is_overlapping_itself(&body));
    let body = vec![p(9, 9), p(8, 9), p(7, 9), p(9, 9)];
    assert!(Snake::is_overlapping_itself(&body));
}

#[test]
fn draw_renders_segments_then_head_on_top() {
    let body = vec![p(5, 0), p(4, 0), p(3, 0)];
    let cmds = Snake::draw(&body, 4);
    assert_eq!(cmds.len(), 3);
    assert_eq!(cmds[0], DrawCommand { color: Color::SnakeBody, x: 16, y: 0, size: 4 });
    assert_eq!(cmds[1], DrawCommand { color: Color::SnakeBody, x: 12, y: 0, size: 4 });
    assert_eq!(cmds[2], DrawCommand { color: Color::SnakeHead, x: 20, y: 0, size: 4 });
}

#[test]
fn draw_of_empty_body_renders_nothing() {
    let body: Vec<Point> = vec![];
    let cmds = Snake::draw(&body, 4);
    assert!(cmds.is_empty());
}

#[test]
fn overlap_absent_for_empty_and_single_segment_bodies() {
    let body: Vec<Point> = vec![];
    assert!(!Snake::is_overlapping_itself(&body));
    let body = vec![p(7, 7)];
    assert!(!Snake::is_overlapping_itself(&body));
}
