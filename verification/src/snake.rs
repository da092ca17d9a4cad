use crate::palette::{can_scale, cell_command, cell_command_spec, Color, DrawCommand};
use crate::point::{in_grid, wrap_add_spec, Point};
use vstd::prelude::*;

verus! {

/// Namespace for the snake operations: the body is a plain `Vec<Point>`
/// owned by the game state, head first.
pub struct Snake;

/// A direction is one of the four axis-aligned unit vectors.
pub open spec fn is_unit_direction(d: Point) -> bool {
    ||| d == (Point { x: 1, y: 0 })
    ||| d == (Point { x: -1i32, y: 0 })
    ||| d == (Point { x: 0, y: 1 })
    ||| d == (Point { x: 0, y: -1i32 })
}

/// Every segment of `body` lies inside the `width` by `height` grid.
pub open spec fn all_in_grid(body: Seq<Point>, width: int, height: int) -> bool {
    forall|i: int| 0 <= i < body.len() ==> in_grid(body[i], width, height)
}

/// The head cell after one step in `dir`, wrapped onto the grid.
pub open spec fn new_head_spec(body: Seq<Point>, dir: Point, width: int, height: int) -> Point {
    wrap_add_spec(body[0], dir, width, height)
}

/// The body after one movement step: the wrapped new head is prepended
/// and the last segment is dropped, so the length is unchanged.
pub open spec fn moved_body_spec(body: Seq<Point>, dir: Point, width: int, height: int) -> Seq<
    Point,
> {
    seq![new_head_spec(body, dir, width, height)] + body.drop_last()
}

/// The body after one growth step: the wrapped new head is prepended
/// and nothing is dropped, so the length grows by one.
pub open spec fn grown_body_spec(body: Seq<Point>, dir: Point, width: int, height: int) -> Seq<
    Point,
> {
    seq![new_head_spec(body, dir, width, height)] + body
}

/// The direction after a turn request: the proposal is rejected exactly
/// when it is the opposite of the current heading (their sum is the
/// zero vector), the anti-reversal rule.
pub open spec fn turned(current: Point, proposed: Point) -> Point {
    if current.x + proposed.x == 0 && current.y + proposed.y == 0 {
        current
    } else {
        proposed
    }
}

/// The direction pointing exactly opposite to `d`.
pub open spec fn opposite(d: Point) -> Point {
    Point { x: (0 - d.x) as i32, y: (0 - d.y) as i32 }
}

/// Anti-reversal law: for any current direction, a proposal equal to
/// its exact opposite leaves the heading unchanged, and any other
/// proposal is adopted.
pub proof fn lemma_anti_reversal(current: Point, proposed: Point)
    requires
        is_unit_direction(current),
        is_unit_direction(proposed),
    ensures
        proposed == opposite(current) ==> turned(current, proposed) == current,
        proposed != opposite(current) ==> turned(current, proposed) == proposed,
{
}

/// Some cell occurs more than once in `body`.
pub open spec fn has_duplicate(body: Seq<Point>) -> bool {
    exists|i: int, j: int| 0 <= i < j < body.len() && body[i] == body[j]
}

/// The draw commands for a snake body: every non-head segment in the
/// body color first, then the head in its own color, so the head is
/// always drawn on top.
pub open spec fn snake_commands_spec(body: Seq<Point>, size: i32) -> Seq<DrawCommand> {
    if body.len() == 0 {
        Seq::<DrawCommand>::empty()
    } else {
        Seq::new((body.len() - 1) as nat, |i: int| cell_command_spec(body[i + 1], Color::SnakeBody, size))
            + seq![cell_command_spec(body[0], Color::SnakeHead, size)]
    }
}

impl Snake {
    /// Advance the body one cell in `current_direction` on the toroidal
    /// grid: prepend the wrapped new head, drop the tail segment. The
    /// length never changes and every segment stays on the grid.
    pub fn move_body(
        body: &mut Vec<Point>,
        current_direction: Point,
        grid_width: i32,
        grid_height: i32,
    )
        requires
            old(body)@.len() >= 1,
            0 < grid_width,
            0 < grid_height,
            2 * grid_width <= i32::MAX,
            2 * grid_height <= i32::MAX,
            all_in_grid(old(body)@, grid_width as int, grid_height as int),
            is_unit_direction(current_direction),
        ensures
            final(body)@ == moved_body_spec(
                old(body)@,
                current_direction,
                grid_width as int,
                grid_height as int,
            ),
            final(body)@.len() == old(body)@.len(),
            all_in_grid(final(body)@, grid_width as int, grid_height as int),
    {
        let new_head = body[0].wrap_add(current_direction, grid_width, grid_height);
        body.insert(0, new_head);
        body.pop();
        proof {
            assert(body@ =~= moved_body_spec(
                old(body)@,
                current_direction,
                grid_width as int,
                grid_height as int,
            ));
        }
    }

    /// Grow the body one cell in `direction` on the toroidal grid:
    /// prepend the wrapped new head and keep every old segment, so the
    /// length grows by exactly one.
    pub fn grow(body: &mut Vec<Point>, direction: Point, grid_width: i32, grid_height: i32)
        requires
            old(body)@.len() >= 1,
            old(body)@.len() < usize::MAX,
            0 < grid_width,
            0 < grid_height,
            2 * grid_width <= i32::MAX,
            2 * grid_height <= i32::MAX,
            all_in_grid(old(body)@, grid_width as int, grid_height as int),
            is_unit_direction(direction),
        ensures
            final(body)@ == grown_body_spec(
                old(body)@,
                direction,
                grid_width as int,
                grid_height as int,
            ),
            final(body)@.len() == old(body)@.len() + 1,
            all_in_grid(final(body)@, grid_width as int, grid_height as int),
    {
        let new_head = body[0].wrap_add(direction, grid_width, grid_height);
        body.insert(0, new_head);
        proof {
            assert(body@ =~= grown_body_spec(
                old(body)@,
                direction,
                grid_width as int,
                grid_height as int,
            ));
        }
    }

    /// Adopt `new_direction` unless it is the exact opposite of the
    /// current one, in which case the heading is left unchanged.
    pub fn change_direction(current_direction: &mut Point, new_direction: Point)
        requires
            is_unit_direction(*old(current_direction)),
            is_unit_direction(new_direction),
        ensures
            *final(current_direction) == turned(*old(current_direction), new_direction),
            is_unit_direction(*final(current_direction)),
    {
        if current_direction.x + new_direction.x != 0
            || current_direction.y + new_direction.y != 0 {
            *current_direction = new_direction;
        }
    }

    /// Turn upward (negative y), unless currently heading downward.
    pub fn up(direction: &mut Point)
        requires
            is_unit_direction(*old(direction)),
        ensures
            *final(direction) == turned(*old(direction), (Point { x: 0, y: -1i32 })),
            is_unit_direction(*final(direction)),
    {
        Snake::change_direction(direction, Point { x: 0, y: -1i32 });
    }

    /// Turn downward (positive y), unless currently heading upward.
    pub fn down(direction: &mut Point)
        requires
            is_unit_direction(*old(direction)),
        ensures
            *final(direction) == turned(*old(direction), (Point { x: 0, y: 1 })),
            is_unit_direction(*final(direction)),
    {
        Snake::change_direction(direction, Point { x: 0, y: 1 });
    }

    /// Turn left (negative x), unless currently heading right.
    pub fn left(direction: &mut Point)
        requires
            is_unit_direction(*old(direction)),
        ensures
            *final(direction) == turned(*old(direction), (Point { x: -1i32, y: 0 })),
            is_unit_direction(*final(direction)),
    {
        Snake::change_direction(direction, Point { x: -1i32, y: 0 });
    }

    /// Turn right (positive x), unless currently heading left.
    pub fn right(direction: &mut Point)
        requires
            is_unit_direction(*old(direction)),
        ensures
            *final(direction) == turned(*old(direction), (Point { x: 1, y: 0 })),
            is_unit_direction(*final(direction)),
    {
        Snake::change_direction(direction, Point { x: 1, y: 0 });
    }

    /// Whether some cell occurs more than once in `body`: a genuine
    /// self-collision, some segment lies on top of another.
    pub fn is_overlapping_itself(body: &Vec<Point>) -> (r: bool)
        ensures
            r == has_duplicate(body@),
    {
        let mut i: usize = 1;
        while i < body.len()
            invariant
                1 <= i,
                body@.len() > 0 ==> i <= body@.len(),
                body@.len() == 0 ==> i == 1,
                forall|k: int, l: int| 0 <= k < l < i ==> body@[k] != body@[l],
            decreases body@.len() - i,
        {
            let mut j: usize = 0;
            while j < i
                invariant
                    0 <= j <= i < body@.len(),
                    forall|k: int| 0 <= k < j ==> body@[k] != body@[i as int],
                decreases i - j,
            {
                if body[j] == body[i] {
                    proof {
                        assert(0 <= j < i < body@.len() && body@[j as int] == body@[i as int]);
                    }
                    return true;
                }
                j = j + 1;
            }
            i = i + 1;
        }
        false
    }

    /// The draw commands for the whole body: each non-head segment in
    /// the body color, then the head in the head color, topmost.
    pub fn draw(body: &Vec<Point>, grid_segment_size: i32) -> (cmds: Vec<DrawCommand>)
        requires
            0 <= grid_segment_size,
            forall|i: int| 0 <= i < body@.len() ==> can_scale(body@[i], grid_segment_size),
        ensures
            cmds@ == snake_commands_spec(body@, grid_segment_size),
            cmds@.len() == body@.len(),
    {
        let mut cmds: Vec<DrawCommand> = Vec::new();
        let mut i: usize = 1;
        while i < body.len()
            invariant
                1 <= i,
                body@.len() > 0 ==> i <= body@.len(),
                body@.len() == 0 ==> i == 1,
                cmds@.len() == i - 1,
                0 <= grid_segment_size,
                forall|n: int| 0 <= n < body@.len() ==> can_scale(body@[n], grid_segment_size),
                forall|k: int|
                    0 <= k < i - 1 ==> cmds@[k] == cell_command_spec(
                        body@[k + 1],
                        Color::SnakeBody,
                        grid_segment_size,
                    ),
            decreases body@.len() - i,
        {
            let cmd = cell_command(body[i], Color::SnakeBody, grid_segment_size);
            cmds.push(cmd);
            i = i + 1;
        }
        if body.len() > 0 {
            let head_cmd = cell_command(body[0], Color::SnakeHead, grid_segment_size);
            cmds.push(head_cmd);
        }
        proof {
            assert(cmds@ =~= snake_commands_spec(body@, grid_segment_size));
        }
        cmds
    }
}

} // verus!
