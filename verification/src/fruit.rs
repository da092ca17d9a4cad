use crate::palette::{can_scale, cell_command, cell_command_spec, Color, DrawCommand};
use crate::point::{contains_point, in_grid, Point};
use crate::random::random_below;
use vstd::arithmetic::div_mod::{
    lemma_div_pos_is_pos, lemma_fundamental_div_mod, lemma_mod_bound, lemma_multiply_divide_lt,
};
use vstd::prelude::*;
use vstd::set_lib::lemma_len_subset;

verus! {

/// How many random samples are taken before fruit placement falls back
/// to scanning the grid for its first free cell. The board is large
/// compared with the snake, so the fallback is all but unreachable; it
/// exists so that placement terminates even on a nearly full board.
const MAX_PLACEMENT_SAMPLES: usize = 1024;

/// Some cell of the `width` by `height` grid is occupied by no snake
/// segment.
pub open spec fn free_cell_exists(body: Seq<Point>, width: int, height: int) -> bool {
    exists|p: Point| in_grid(p, width, height) && !body.contains(p)
}

/// Cell number `k` of the grid in row-major order.
spec fn grid_cell(k: int, width: int) -> Point {
    Point { x: (k % width) as i32, y: (k / width) as i32 }
}

/// Pigeonhole: a snake that occupies fewer distinct cells than the grid
/// has leaves at least one cell free.
pub proof fn lemma_free_cell_exists(body: Seq<Point>, width: int, height: int)
    requires
        0 < width <= i32::MAX,
        0 < height <= i32::MAX,
        body.to_set().len() < width * height,
    ensures
        free_cell_exists(body, width, height),
{
    broadcast use vstd::seq_lib::seq_to_set_is_finite;

    if !free_cell_exists(body, width, height) {
        // Every grid cell would be a snake cell; enumerating the grid
        // without repeats then contradicts the cardinality bound.
        let cells = Seq::new((width * height) as nat, |k: int| grid_cell(k, width));
        assert forall|k: int| 0 <= k < width * height implies in_grid(
            #[trigger] cells[k],
            width,
            height,
        ) && body.contains(cells[k]) by {
            lemma_mod_bound(k, width);
            lemma_div_pos_is_pos(k, width);
            lemma_multiply_divide_lt(k, width, height);
            assert(in_grid(cells[k], width, height));
        }
        assert(cells.no_duplicates()) by {
            assert forall|i: int, j: int|
                0 <= i < cells.len() && 0 <= j < cells.len() && i != j implies cells[i]
                != cells[j] by {
                lemma_mod_bound(i, width);
                lemma_div_pos_is_pos(i, width);
                lemma_multiply_divide_lt(i, width, height);
                lemma_mod_bound(j, width);
                lemma_div_pos_is_pos(j, width);
                lemma_multiply_divide_lt(j, width, height);
                if cells[i] == cells[j] {
                    assert(i % width == j % width && i / width == j / width);
                    lemma_fundamental_div_mod(i, width);
                    lemma_fundamental_div_mod(j, width);
                }
            }
        }
        cells.unique_seq_to_set();
        assert(cells.to_set().subset_of(body.to_set())) by {
            assert forall|p: Point| cells.to_set().contains(p) implies body.to_set().contains(
                p,
            ) by {
                let k = choose|k: int| 0 <= k < cells.len() && cells[k] == p;
                assert(body.contains(cells[k]));
            }
        }
        lemma_len_subset(cells.to_set(), body.to_set());
        assert(false);
    }
}

/// Namespace for fruit placement and drawing; the fruit itself is a
/// single `Point` owned by the game state.
pub struct Fruit;

impl Fruit {
    /// Pick a free cell: sample uniformly random cells and return the
    /// first one that no snake segment occupies. The caller must leave
    /// at least one cell of the grid free. The board being much larger
    /// than the snake, a handful of samples all but always suffices;
    /// should they all land on the snake, the first free cell in
    /// row-major order is returned instead, so placement always
    /// terminates.
    pub fn generate_position(
        snake_body: &Vec<Point>,
        grid_width: i32,
        grid_height: i32,
        rng: &mut fastrand::Rng,
    ) -> (r: Point)
        requires
            0 < grid_width,
            0 < grid_height,
            free_cell_exists(snake_body@, grid_width as int, grid_height as int),
        ensures
            in_grid(r, grid_width as int, grid_height as int),
            !snake_body@.contains(r),
    {
        let mut tries: usize = 0;
        while tries < MAX_PLACEMENT_SAMPLES
            invariant
                0 < grid_width,
                0 < grid_height,
            decreases MAX_PLACEMENT_SAMPLES - tries,
        {
            let candidate = Point {
                x: random_below(rng, grid_width),
                y: random_below(rng, grid_height),
            };

            if !contains_point(snake_body, candidate) {
                return candidate;
            }
            tries = tries + 1;
        }

        let ghost free = choose|p: Point|
            in_grid(p, grid_width as int, grid_height as int) && !snake_body@.contains(p);
        let mut y: i32 = 0;
        while y < grid_height
            invariant
                0 < grid_width,
                0 < grid_height,
                in_grid(free, grid_width as int, grid_height as int),
                !snake_body@.contains(free),
                0 <= y <= free.y,
            decreases grid_height - y,
        {
            let mut x: i32 = 0;
            while x < grid_width
                invariant
                    0 < grid_width,
                    0 < grid_height,
                    in_grid(free, grid_width as int, grid_height as int),
                    !snake_body@.contains(free),
                    0 <= y,
                    0 <= x <= grid_width,
                    y < free.y || (y == free.y && x <= free.x),
                decreases grid_width - x,
            {
                let candidate = Point { x, y };
                if !contains_point(snake_body, candidate) {
                    return candidate;
                }
                proof {
                    // the free cell is never occupied, so it has not
                    // been passed
                    if y == free.y && x == free.x {
                        assert(candidate == free);
                        assert(false);
                    }
                }
                x = x + 1;
            }
            y = y + 1;
        }
        proof {
            // unreachable: the scan cannot run past the free cell's row
            assert(false);
        }
        vstd::pervasive::unreached()
    }

    /// The draw command for the fruit: a filled square of side
    /// `grid_segment_size` pixels at the fruit's cell.
    pub fn draw(position: Point, grid_segment_size: i32) -> (cmd: DrawCommand)
        requires
            0 <= grid_segment_size,
            can_scale(position, grid_segment_size),
        ensures
            cmd == cell_command_spec(position, Color::Fruit, grid_segment_size),
    {
        cell_command(position, Color::Fruit, grid_segment_size)
    }
}

} // verus!
