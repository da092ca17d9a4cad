use crate::fruit::{lemma_free_cell_exists, Fruit};
use crate::game_status::GameStatus;
use crate::palette::{cell_command_spec, Color, DrawCommand};
use crate::point::{in_grid, Point};
use crate::random::seeded_rng;
use crate::snake::{
    all_in_grid, grown_body_spec, has_duplicate, is_unit_direction, moved_body_spec,
    snake_commands_spec, turned, Snake,
};
use vstd::prelude::*;

verus! {

/// The snake moves every this many ticks; rendering happens every tick.
pub const UPDATE_INTERVAL_IN_TICKS: u32 = 2;

/// Side of one grid cell, in pixels.
pub const GRID_SEGMENT_SIZE: i32 = 4;

/// Width of the grid, in cells.
pub const GRID_WIDTH: i32 = 40;

/// Height of the grid, in cells.
pub const GRID_HEIGHT: i32 = 40;

/// Total number of cells of the grid: `GRID_WIDTH` times `GRID_HEIGHT`.
pub const GRID_CELL_COUNT: usize = 1600;

/// Input bitmask bit for the left button.
pub const BUTTON_LEFT: u8 = 16;

/// Input bitmask bit for the right button.
pub const BUTTON_RIGHT: u8 = 32;

/// Input bitmask bit for the up button.
pub const BUTTON_UP: u8 = 64;

/// Input bitmask bit for the down button.
pub const BUTTON_DOWN: u8 = 128;

/// The snake the game starts with: six segments on the top row, head
/// first, heading right.
pub open spec fn initial_body_spec() -> Seq<Point> {
    seq![
        Point { x: 5, y: 0 },
        Point { x: 4, y: 0 },
        Point { x: 3, y: 0 },
        Point { x: 2, y: 0 },
        Point { x: 1, y: 0 },
        Point { x: 0, y: 0 },
    ]
}

/// The direction the game starts with: heading right.
pub open spec fn initial_direction_spec() -> Point {
    Point { x: 1, y: 0 }
}

/// Build the snake every session starts with.
fn initial_snake_body() -> (body: Vec<Point>)
    ensures
        body@ == initial_body_spec(),
{
    let mut body: Vec<Point> = Vec::new();
    body.push(Point { x: 5, y: 0 });
    body.push(Point { x: 4, y: 0 });
    body.push(Point { x: 3, y: 0 });
    body.push(Point { x: 2, y: 0 });
    body.push(Point { x: 1, y: 0 });
    body.push(Point { x: 0, y: 0 });
    proof {
        assert(body@ =~= initial_body_spec());
    }
    body
}

/// The mutable part of a session: the snake, its heading, the score
/// and the fruit's cell.
pub struct GameState {
    pub snake_body: Vec<Point>,
    pub snake_direction: Point,
    pub score: u32,
    pub fruit_position: Point,
}

impl GameState {
    /// The state every session starts from, with the fruit wherever
    /// the caller placed it.
    pub fn new(initial_fruit_position: Point) -> (s: GameState)
        ensures
            s.snake_body@ == initial_body_spec(),
            s.snake_direction == initial_direction_spec(),
            s.score == 0,
            s.fruit_position == initial_fruit_position,
    {
        GameState {
            snake_body: initial_snake_body(),
            snake_direction: Point { x: 1, y: 0 },
            score: 0,
            fruit_position: initial_fruit_position,
        }
    }
}

/// One game session: the state, the lifecycle status, the tick counter,
/// the last input snapshot, and the generator that places fruit.
pub struct Game {
    pub rng: fastrand::Rng,
    pub state: GameState,
    pub status: GameStatus,
    pub tick_count: u32,
    pub player_button: u8,
}

/// The tick counter after one tick, wrapping at the top of its range.
pub open spec fn next_tick(t: u32) -> u32 {
    if t == u32::MAX {
        0
    } else {
        (t + 1) as u32
    }
}

/// The heading after one tick's input is applied: each held direction
/// button requests a turn, checked in the fixed order left, right, up,
/// down, each through the anti-reversal rule, so a later held button
/// overrides an earlier one.
pub open spec fn direction_after_input(current: Point, buttons: u8) -> Point {
    let after_left = if buttons & BUTTON_LEFT != 0 {
        turned(current, (Point { x: -1i32, y: 0 }))
    } else {
        current
    };
    let after_right = if buttons & BUTTON_RIGHT != 0 {
        turned(after_left, (Point { x: 1, y: 0 }))
    } else {
        after_left
    };
    let after_up = if buttons & BUTTON_UP != 0 {
        turned(after_right, (Point { x: 0, y: -1i32 }))
    } else {
        after_right
    };
    if buttons & BUTTON_DOWN != 0 {
        turned(after_up, (Point { x: 0, y: 1 }))
    } else {
        after_up
    }
}

/// Whether the snake moves on the tick that follows `pre`: movement
/// cadence is every `UPDATE_INTERVAL_IN_TICKS` ticks.
pub open spec fn moves_this_tick(pre: Game) -> bool {
    next_tick(pre.tick_count) % UPDATE_INTERVAL_IN_TICKS == 0
}

/// The heading at the end of the tick that follows `pre`: input is
/// applied only on movement ticks.
pub open spec fn direction_for_tick(pre: Game, buttons: u8) -> Point {
    if moves_this_tick(pre) {
        direction_after_input(pre.state.snake_direction, buttons)
    } else {
        pre.state.snake_direction
    }
}

/// The body after the movement step of the tick that follows `pre`
/// (before any growth), moved only on movement ticks.
pub open spec fn body_for_tick(pre: Game, buttons: u8) -> Seq<Point> {
    if moves_this_tick(pre) {
        moved_body_spec(
            pre.state.snake_body@,
            direction_for_tick(pre, buttons),
            GRID_WIDTH as int,
            GRID_HEIGHT as int,
        )
    } else {
        pre.state.snake_body@
    }
}

/// Whether the tick that follows `pre` eats the fruit: after movement,
/// the head sits on the fruit's cell.
pub open spec fn eats_this_tick(pre: Game, buttons: u8) -> bool {
    body_for_tick(pre, buttons).len() >= 1 && body_for_tick(pre, buttons)[0]
        == pre.state.fruit_position
}

/// Whether the tick that follows `pre` ends in a self-collision.
pub open spec fn crashes_this_tick(pre: Game, buttons: u8) -> bool {
    has_duplicate(body_for_tick(pre, buttons))
}

/// The frame rendered from `state`: the snake's commands, then the
/// fruit's, last and so topmost among overlapping cells.
pub open spec fn frame_spec(state: GameState) -> Seq<DrawCommand> {
    snake_commands_spec(state.snake_body@, GRID_SEGMENT_SIZE).push(
        cell_command_spec(state.fruit_position, Color::Fruit, GRID_SEGMENT_SIZE),
    )
}

impl Game {
    /// Well-formedness of a session, established by `new` and kept by
    /// `update`: the snake is non-empty, on the grid and no longer than
    /// the board, a full board only occurs once the game is finished,
    /// the score never exceeds the body length, the heading is a unit
    /// vector, and while any cell is free the fruit sits on the grid
    /// away from every snake segment.
    pub open spec fn wf(self) -> bool {
        &&& 1 <= self.state.snake_body@.len() <= GRID_CELL_COUNT
        &&& (self.status != GameStatus::Finished ==> self.state.snake_body@.len()
            < GRID_CELL_COUNT)
        &&& self.state.score <= self.state.snake_body@.len()
        &&& all_in_grid(self.state.snake_body@, GRID_WIDTH as int, GRID_HEIGHT as int)
        &&& is_unit_direction(self.state.snake_direction)
        &&& in_grid(self.state.fruit_position, GRID_WIDTH as int, GRID_HEIGHT as int)
        &&& (self.state.snake_body@.len() < GRID_CELL_COUNT
            ==> !self.state.snake_body@.contains(self.state.fruit_position))
    }

    /// Start a session: seed the generator, place the first fruit off
    /// the initial snake, and stand ready in the `Ongoing` state.
    pub fn new(random_seed: u64) -> (game: Game)
        ensures
            game.wf(),
            game.status == GameStatus::Ongoing,
            game.tick_count == 0,
            game.player_button == 0,
            game.state.snake_body@ == initial_body_spec(),
            game.state.snake_direction == initial_direction_spec(),
            game.state.score == 0,
            in_grid(game.state.fruit_position, GRID_WIDTH as int, GRID_HEIGHT as int),
            !game.state.snake_body@.contains(game.state.fruit_position),
    {
        let mut rng = seeded_rng(random_seed);
        let initial_body = initial_snake_body();
        proof {
            initial_body@.lemma_cardinality_of_set();
            lemma_free_cell_exists(initial_body@, GRID_WIDTH as int, GRID_HEIGHT as int);
        }
        let initial_fruit_position = Fruit::generate_position(
            &initial_body,
            GRID_WIDTH,
            GRID_HEIGHT,
            &mut rng,
        );
        let state = GameState::new(initial_fruit_position);
        Game { rng, state, status: GameStatus::Ongoing, tick_count: 0, player_button: 0 }
    }

    /// Store this tick's input snapshot.
    fn poll_player_input(&mut self, gamepad: u8)
        ensures
            final(self).player_button == gamepad,
            final(self).state == old(self).state,
            final(self).status == old(self).status,
            final(self).tick_count == old(self).tick_count,
            final(self).rng == old(self).rng,
    {
        self.player_button = gamepad;
    }

    /// Replace the fruit with a fresh cell off the snake, consuming the
    /// session's generator.
    fn set_new_fruit_position(&mut self)
        requires
            old(self).state.snake_body@.to_set().len() < GRID_WIDTH as int * GRID_HEIGHT as int,
        ensures
            in_grid(final(self).state.fruit_position, GRID_WIDTH as int, GRID_HEIGHT as int),
            !final(self).state.snake_body@.contains(final(self).state.fruit_position),
            final(self).state.snake_body == old(self).state.snake_body,
            final(self).state.snake_direction == old(self).state.snake_direction,
            final(self).state.score == old(self).state.score,
            final(self).status == old(self).status,
            final(self).tick_count == old(self).tick_count,
            final(self).player_button == old(self).player_button,
    {
        proof {
            lemma_free_cell_exists(
                self.state.snake_body@,
                GRID_WIDTH as int,
                GRID_HEIGHT as int,
            );
        }
        self.state.fruit_position = Fruit::generate_position(
            &self.state.snake_body,
            GRID_WIDTH,
            GRID_HEIGHT,
            &mut self.rng,
        );
    }

    /// Whether the head sits on the fruit's cell.
    fn is_snake_eating_fruit(&self) -> (r: bool)
        ensures
            r == (self.state.snake_body@.len() >= 1 && self.state.snake_body@[0]
                == self.state.fruit_position),
    {
        if self.state.snake_body.len() >= 1 {
            self.state.snake_body[0] == self.state.fruit_position
        } else {
            false
        }
    }

    /// Whether the snake overlaps itself.
    fn is_snake_crashing(&self) -> (r: bool)
        ensures
            r == has_duplicate(self.state.snake_body@),
    {
        Snake::is_overlapping_itself(&self.state.snake_body)
    }

    /// Apply this tick's turn requests in the fixed order left, right,
    /// up, down, then move the snake one cell in the resulting heading.
    pub fn move_snake(&mut self)
        requires
            old(self).state.snake_body@.len() >= 1,
            all_in_grid(old(self).state.snake_body@, GRID_WIDTH as int, GRID_HEIGHT as int),
            is_unit_direction(old(self).state.snake_direction),
        ensures
            final(self).state.snake_direction == direction_after_input(
                old(self).state.snake_direction,
                old(self).player_button,
            ),
            is_unit_direction(final(self).state.snake_direction),
            final(self).state.snake_body@ == moved_body_spec(
                old(self).state.snake_body@,
                final(self).state.snake_direction,
                GRID_WIDTH as int,
                GRID_HEIGHT as int,
            ),
            final(self).state.snake_body@.len() == old(self).state.snake_body@.len(),
            all_in_grid(final(self).state.snake_body@, GRID_WIDTH as int, GRID_HEIGHT as int),
            final(self).state.score == old(self).state.score,
            final(self).state.fruit_position == old(self).state.fruit_position,
            final(self).status == old(self).status,
            final(self).tick_count == old(self).tick_count,
            final(self).player_button == old(self).player_button,
    {
        if self.player_button & BUTTON_LEFT != 0 {
            Snake::left(&mut self.state.snake_direction);
        }
        if self.player_button & BUTTON_RIGHT != 0 {
            Snake::right(&mut self.state.snake_direction);
        }
        if self.player_button & BUTTON_UP != 0 {
            Snake::up(&mut self.state.snake_direction);
        }
        if self.player_button & BUTTON_DOWN != 0 {
            Snake::down(&mut self.state.snake_direction);
        }
        Snake::move_body(&mut self.state.snake_body, self.state.snake_direction, GRID_WIDTH, GRID_HEIGHT);
    }

    /// Count the eaten fruit and grow the snake one cell in its current
    /// heading.
    pub fn increment_score(&mut self)
        requires
            old(self).state.snake_body@.len() >= 1,
            old(self).state.snake_body@.len() < usize::MAX,
            old(self).state.score < u32::MAX,
            all_in_grid(old(self).state.snake_body@, GRID_WIDTH as int, GRID_HEIGHT as int),
            is_unit_direction(old(self).state.snake_direction),
        ensures
            final(self).state.score == old(self).state.score + 1,
            final(self).state.snake_body@ == grown_body_spec(
                old(self).state.snake_body@,
                old(self).state.snake_direction,
                GRID_WIDTH as int,
                GRID_HEIGHT as int,
            ),
            final(self).state.snake_body@.len() == old(self).state.snake_body@.len() + 1,
            all_in_grid(final(self).state.snake_body@, GRID_WIDTH as int, GRID_HEIGHT as int),
            final(self).state.snake_direction == old(self).state.snake_direction,
            final(self).state.fruit_position == old(self).state.fruit_position,
            final(self).status == old(self).status,
            final(self).tick_count == old(self).tick_count,
            final(self).player_button == old(self).player_button,
    {
        self.state.score = self.state.score + 1;
        Snake::grow(&mut self.state.snake_body, self.state.snake_direction, GRID_WIDTH, GRID_HEIGHT);
    }

    /// Render the current state: the snake's commands, then the fruit's.
    fn draw_frame(&self) -> (frame: Vec<DrawCommand>)
        requires
            all_in_grid(self.state.snake_body@, GRID_WIDTH as int, GRID_HEIGHT as int),
            in_grid(self.state.fruit_position, GRID_WIDTH as int, GRID_HEIGHT as int),
        ensures
            frame@ == frame_spec(self.state),
    {
        let mut frame = Snake::draw(&self.state.snake_body, GRID_SEGMENT_SIZE);
        let fruit_cmd = Fruit::draw(self.state.fruit_position, GRID_SEGMENT_SIZE);
        frame.push(fruit_cmd);
        frame
    }

    /// Run one tick and return the frame to render.
    ///
    /// While `Ongoing`: count the tick, snapshot the input, move the
    /// snake on every second tick (applying turn requests first), end
    /// the game on self-collision, and when the head reaches the fruit
    /// raise the score, grow the snake and place a new fruit on a free
    /// cell — unless the grown snake fills the whole board, in which
    /// case no free cell is left and the game ends instead. While
    /// `Finished`: only the frozen frame is rendered. While `Paused`:
    /// nothing happens and nothing is rendered.
    pub fn update(&mut self, gamepad: u8) -> (frame: Vec<DrawCommand>)
        requires
            old(self).wf(),
        ensures
            final(self).wf(),
            old(self).status == GameStatus::Paused ==> *final(self) == *old(self)
                && frame@.len() == 0,
            old(self).status == GameStatus::Finished ==> *final(self) == *old(self) && frame@
                == frame_spec(old(self).state),
            old(self).status == GameStatus::Ongoing ==> {
                &&& final(self).tick_count == next_tick(old(self).tick_count)
                &&& final(self).player_button == gamepad
                &&& final(self).state.snake_direction == direction_for_tick(*old(self), gamepad)
                &&& final(self).status == (if crashes_this_tick(*old(self), gamepad) || (
                    eats_this_tick(*old(self), gamepad) && body_for_tick(*old(self), gamepad).len()
                        + 1 == GRID_CELL_COUNT) {
                    GameStatus::Finished
                } else {
                    GameStatus::Ongoing
                })
                &&& (!eats_this_tick(*old(self), gamepad) ==> final(self).state.snake_body@
                    == body_for_tick(*old(self), gamepad) && final(self).state.score == old(
                    self,
                ).state.score && final(self).state.fruit_position == old(
                    self,
                ).state.fruit_position)
                &&& (eats_this_tick(*old(self), gamepad) ==> final(self).state.snake_body@
                    == grown_body_spec(
                    body_for_tick(*old(self), gamepad),
                    direction_for_tick(*old(self), gamepad),
                    GRID_WIDTH as int,
                    GRID_HEIGHT as int,
                ) && final(self).state.score == old(self).state.score + 1)
                &&& (eats_this_tick(*old(self), gamepad) && final(self).state.snake_body@.len()
                    < GRID_CELL_COUNT ==> !final(self).state.snake_body@.contains(
                    final(self).state.fruit_position,
                ) && in_grid(
                    final(self).state.fruit_position,
                    GRID_WIDTH as int,
                    GRID_HEIGHT as int,
                ))
                &&& (eats_this_tick(*old(self), gamepad) && final(self).state.snake_body@.len()
                    == GRID_CELL_COUNT ==> final(self).state.fruit_position == old(
                    self,
                ).state.fruit_position)
                &&& frame@ == frame_spec(final(self).state)
            },
    {
        match self.status {
            GameStatus::Ongoing => {
                self.tick_count = self.tick_count.wrapping_add(1);
                self.poll_player_input(gamepad);

                if self.tick_count % UPDATE_INTERVAL_IN_TICKS == 0 {
                    self.move_snake();
                }

                if self.is_snake_crashing() {
                    self.status = GameStatus::Finished;
                }

                if self.is_snake_eating_fruit() {
                    self.increment_score();
                    if self.state.snake_body.len() < GRID_CELL_COUNT {
                        proof {
                            self.state.snake_body@.lemma_cardinality_of_set();
                        }
                        self.set_new_fruit_position();
                    } else {
                        self.status = GameStatus::Finished;
                    }
                } else {
                    proof {
                        let pre = *old(self);
                        let body1 = body_for_tick(pre, gamepad);
                        if body1.len() < GRID_CELL_COUNT {
                            assert forall|k: int| 0 <= k < body1.len() implies body1[k]
                                != pre.state.fruit_position by {
                                if moves_this_tick(pre) {
                                    if k == 0 {
                                    } else {
                                        assert(body1[k] == pre.state.snake_body@[k - 1]);
                                    }
                                }
                            }
                            assert(!body1.contains(pre.state.fruit_position));
                        }
                    }
                }

                self.draw_frame()
            },
            GameStatus::Paused => Vec::new(),
            GameStatus::Finished => self.draw_frame(),
        }
    }
}

} // verus!
