//! What holds of the chosen move in every snapshot.

use crate::coord::Direction;
use crate::selector::{chosen, legal};
use crate::state::GameState;
use vstd::prelude::*;

verus! {

/// The chosen move is legal whenever some move is, and it is up when none is.
pub proof fn chosen_is_legal(state: GameState)
    ensures
        !legal(state).is_empty() ==> state.allows(chosen(state)),
        legal(state).is_empty() ==> chosen(state) == Direction::Up,
{
}

/// Where the food lies to one side of the head and the step to that side is
/// legal, that step is chosen, whatever else is on the board.
pub proof fn seeks_food_sideways(state: GameState)
    requires
        state.board.target().is_some(),
    ensures
        state.board.target().unwrap().0 > state.you.head@.0 && state.allows(Direction::Right)
            ==> chosen(state) == Direction::Right,
        state.board.target().unwrap().0 < state.you.head@.0 && state.allows(Direction::Left)
            ==> chosen(state) == Direction::Left,
{
}

/// Where no sideways step towards the food applies, as when the food lies
/// straight above or below the head, the choice is vertical: up if the food
/// lies above and up is legal, and otherwise down if down is legal.
pub proof fn seeks_food_vertically(state: GameState)
    requires
        state.board.target().is_some(),
        !(state.board.target().unwrap().0 > state.you.head@.0 && state.allows(Direction::Right)),
        !(state.board.target().unwrap().0 < state.you.head@.0 && state.allows(Direction::Left)),
    ensures
        state.board.target().unwrap().1 > state.you.head@.1 && state.allows(Direction::Up)
            ==> chosen(state) == Direction::Up,
        !(state.board.target().unwrap().1 > state.you.head@.1 && state.allows(Direction::Up))
            && state.allows(Direction::Down) ==> chosen(state) == Direction::Down,
{
}

/// A snake that stands on the food, or has no food to make for, steps down
/// if it may.
pub proof fn goes_down_without_a_goal(state: GameState)
    requires
        state.board.target().is_none() || state.board.target() == Some(state.you.head@),
        state.allows(Direction::Down),
    ensures
        chosen(state) == Direction::Down,
{
}

/// A step into a cell on which a body segment of snake `i` lies is not
/// chosen. The one exception is the step up when no step at all is legal:
/// then up is the answer.
pub proof fn avoids_snakes(state: GameState, dir: Direction, i: int)
    requires
        0 <= i < state.board.snakes@.len(),
        state.board.snakes@[i].covers(state.you.head.neighbor(dir)),
        dir != Direction::Up || !legal(state).is_empty(),
    ensures
        chosen(state) != dir,
{
    assert(state.board.occupied(state.you.head.neighbor(dir)));
    assert(!state.allows(dir));
    chosen_is_legal(state);
}

/// A snake that is on the board, as snake `i`, does not turn back onto the
/// segment that follows its head. The one exception is the step up when no
/// step at all is legal.
pub proof fn avoids_own_neck(state: GameState, dir: Direction, i: int)
    requires
        0 <= i < state.board.snakes@.len(),
        state.board.snakes@[i].cells() == state.you.cells(),
        state.you.body@.len() >= 2,
        state.you.body@[1]@ == state.you.head.neighbor(dir),
        dir != Direction::Up || !legal(state).is_empty(),
    ensures
        chosen(state) != dir,
{
    assert(state.you.cells()[1] == state.you.head.neighbor(dir));
    assert(state.board.snakes@[i].covers(state.you.head.neighbor(dir)));
    avoids_snakes(state, dir, i);
}

/// A step off the grid is not chosen. The one exception is the step up when
/// no step at all is legal.
pub proof fn avoids_walls(state: GameState, dir: Direction)
    requires
        !state.board.inside(state.you.head.neighbor(dir)),
        dir != Direction::Up || !legal(state).is_empty(),
    ensures
        chosen(state) != dir,
{
    assert(!state.allows(dir));
    chosen_is_legal(state);
}

/// The choice depends on nothing but the grid's size, the head, the first
/// food item and the cells that bodies lie on: two snapshots that agree on
/// these get the same move.
pub proof fn same_situation_same_move(a: GameState, b: GameState)
    requires
        a.board.width == b.board.width,
        a.board.height == b.board.height,
        a.you.head@ == b.you.head@,
        a.board.target() == b.board.target(),
        forall|cell: (int, int)| a.board.occupied(cell) == b.board.occupied(cell),
    ensures
        chosen(a) == chosen(b),
{
    assert forall|dir: Direction| a.allows(dir) == b.allows(dir) by {
        assert(a.you.head.neighbor(dir) == b.you.head.neighbor(dir));
    }
    assert(legal(a) == legal(b));
}

} // verus!
