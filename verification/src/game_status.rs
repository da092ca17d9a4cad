use vstd::prelude::*;

verus! {

/// The lifecycle of one game session. `Ongoing` is the initial state;
/// `Finished` is terminal, reached on self-collision or when the snake
/// fills the whole board; `Paused` exists as an extension point with no
/// transitions into or out of it defined here.
#[derive(Clone, Copy, PartialEq, Eq, Structural, Debug)]
pub enum GameStatus {
    Ongoing,
    Paused,
    Finished,
}

} // verus!
