use vstd::arithmetic::div_mod::lemma_mod_add_multiples_vanish;
use vstd::prelude::*;

verus! {

/// A cell of the grid: an integer coordinate pair. A value type, copied
/// freely and compared field by field.
#[derive(Clone, Copy, PartialEq, Eq, Structural, Debug)]
pub struct Point {
    pub x: i32,
    pub y: i32,
}

/// The representative of `base + delta` in `[0, modulus)`: the
/// mathematical (non-negative) modulus, so a negative sum wraps to the
/// high end of the range.
pub open spec fn wrap_coord(base: int, delta: int, modulus: int) -> int {
    (base + delta) % modulus
}

/// `base` shifted by `delta`, with each coordinate wrapped onto a
/// `width` by `height` toroidal grid.
pub open spec fn wrap_add_spec(base: Point, delta: Point, width: int, height: int) -> Point {
    Point {
        x: wrap_coord(base.x as int, delta.x as int, width) as i32,
        y: wrap_coord(base.y as int, delta.y as int, height) as i32,
    }
}

/// Every coordinate of `p` lies inside the `width` by `height` grid.
pub open spec fn in_grid(p: Point, width: int, height: int) -> bool {
    0 <= p.x < width && 0 <= p.y < height
}

impl Point {
    /// Shift this point by `delta` on a `width` by `height` toroidal
    /// grid, wrapping each coordinate with the mathematical modulus, so
    /// that for example x = -1 on a width-40 grid yields 39.
    pub fn wrap_add(self, delta: Point, width: i32, height: i32) -> (r: Point)
        requires
            0 < width,
            0 < height,
            -width <= self.x + delta.x,
            self.x + delta.x + width <= i32::MAX,
            -height <= self.y + delta.y,
            self.y + delta.y + height <= i32::MAX,
        ensures
            r == wrap_add_spec(self, delta, width as int, height as int),
            in_grid(r, width as int, height as int),
    {
        proof {
            lemma_mod_add_multiples_vanish(self.x + delta.x, width as int);
            lemma_mod_add_multiples_vanish(self.y + delta.y, height as int);
        }
        Point { x: (self.x + delta.x + width) % width, y: (self.y + delta.y + height) % height }
    }
}

/// Whether `target` occurs among `points`.
pub fn contains_point(points: &Vec<Point>, target: Point) -> (r: bool)
    ensures
        r == points@.contains(target),
{
    let mut i: usize = 0;
    while i < points.len()
        invariant
            0 <= i <= points@.len(),
            forall|k: int| 0 <= k < i ==> points@[k] != target,
        decreases points@.len() - i,
    {
        if points[i] == target {
            return true;
        }
        i = i + 1;
    }
    false
}

} // verus!
