use crate::point::Point;
use vstd::prelude::*;

verus! {

/// The palette slots the game draws with. The host maps each slot to a
/// concrete color of its fixed palette when it executes a draw command.
#[derive(Clone, Copy, PartialEq, Eq, Structural, Debug)]
pub enum Color {
    SnakeBody,
    SnakeHead,
    Fruit,
}

/// One immediate-mode drawing request: fill the axis-aligned square of
/// `size` pixels whose top-left pixel is `(x, y)` with `color`. The
/// library only emits these; the host executes them against its display
/// primitives.
#[derive(Clone, Copy, PartialEq, Eq, Structural, Debug)]
pub struct DrawCommand {
    pub color: Color,
    pub x: i32,
    pub y: i32,
    pub size: u32,
}

/// The command that fills the grid cell `p` with `color`, for cells of
/// `size` by `size` pixels.
pub open spec fn cell_command_spec(p: Point, color: Color, size: i32) -> DrawCommand {
    DrawCommand {
        color: color,
        x: (p.x * size) as i32,
        y: (p.y * size) as i32,
        size: size as u32,
    }
}

/// The pixel position of the grid cell `p` fits in the coordinate type
/// once scaled by `size`.
pub open spec fn can_scale(p: Point, size: i32) -> bool {
    0 <= p.x && 0 <= p.y && p.x * size <= i32::MAX && p.y * size <= i32::MAX
}

/// Build the command that fills the grid cell `p` with `color`.
pub fn cell_command(p: Point, color: Color, size: i32) -> (cmd: DrawCommand)
    requires
        0 <= size,
        can_scale(p, size),
    ensures
        cmd == cell_command_spec(p, color, size),
{
    proof {
        assert(p.x * size >= 0 && p.y * size >= 0) by (nonlinear_arith)
            requires
                0 <= p.x,
                0 <= p.y,
                0 <= size,
        ;
    }
    DrawCommand { color: color, x: p.x * size, y: p.y * size, size: size as u32 }
}

} // verus!
