//! The choice of a move: which directions are legal, and which of them is
//! taken.

use crate::coord::{Coord, Direction};
use crate::state::GameState;
use vstd::prelude::*;

verus! {

/// A set of directions, one flag for each.
#[derive(Clone, Copy, Debug, Eq, PartialEq, Structural)]
pub struct Allowed {
    pub up: bool,
    pub down: bool,
    pub left: bool,
    pub right: bool,
}

impl View for Allowed {
    type V = Set<Direction>;

    open spec fn view(&self) -> Set<Direction> {
        Set::new(|dir: Direction| self.has(dir))
    }
}

impl Allowed {
    /// Whether `dir` is in the set.
    pub open spec fn has(self, dir: Direction) -> bool {
        match dir {
            Direction::Up => self.up,
            Direction::Down => self.down,
            Direction::Left => self.left,
            Direction::Right => self.right,
        }
    }

    /// Whether the set has no member.
    pub open spec fn is_empty(self) -> bool {
        !self.up && !self.down && !self.left && !self.right
    }

    /// The member that comes first in the order up, down, left, right.
    pub open spec fn first(self) -> Option<Direction> {
        if self.up {
            Some(Direction::Up)
        } else if self.down {
            Some(Direction::Down)
        } else if self.left {
            Some(Direction::Left)
        } else if self.right {
            Some(Direction::Right)
        } else {
            None
        }
    }

    /// The set of all four directions.
    pub fn all() -> (a: Allowed)
        ensures
            a.up && a.down && a.left && a.right,
            a@ == Set::<Direction>::full(),
    {
        let a = Allowed { up: true, down: true, left: true, right: true };
        assert(a@ =~= Set::<Direction>::full());
        a
    }

    /// Tells whether `dir` is in the set.
    pub fn contains(&self, dir: &Direction) -> (b: bool)
        ensures
            b == self@.contains(*dir),
    {
        match dir {
            Direction::Up => self.up,
            Direction::Down => self.down,
            Direction::Left => self.left,
            Direction::Right => self.right,
        }
    }

    /// Takes `dir` out of the set and leaves the other members as they are.
    pub fn remove(&mut self, dir: &Direction)
        ensures
            final(self).up == (old(self).up && *dir != Direction::Up),
            final(self).down == (old(self).down && *dir != Direction::Down),
            final(self).left == (old(self).left && *dir != Direction::Left),
            final(self).right == (old(self).right && *dir != Direction::Right),
            final(self)@ == old(self)@.remove(*dir),
    {
        match dir {
            Direction::Up => self.up = false,
            Direction::Down => self.down = false,
            Direction::Left => self.left = false,
            Direction::Right => self.right = false,
        }
        assert(self@ =~= old(self)@.remove(*dir));
    }

    /// The member that comes first in the order up, down, left, right.
    pub fn first_member(&self) -> (m: Option<Direction>)
        ensures
            m == self.first(),
    {
        if self.up {
            Some(Direction::Up)
        } else if self.down {
            Some(Direction::Down)
        } else if self.left {
            Some(Direction::Left)
        } else if self.right {
            Some(Direction::Right)
        } else {
            None
        }
    }
}

/// The move taken from `head` when the directions in `allowed` are legal and
/// `target` is the cell to make for.
///
/// The order is fixed: right if the target lies to the right and right is
/// legal; else left if it lies to the left and left is legal; else up if it
/// lies above and up is legal; else down if down is legal; else the first
/// legal direction; and up when none is legal. Without a target only the last
/// three steps apply.
pub open spec fn ranked(head: (int, int), target: Option<(int, int)>, allowed: Allowed)
    -> Direction {
    if target.is_some() && target.unwrap().0 > head.0 && allowed.right {
        Direction::Right
    } else if target.is_some() && target.unwrap().0 < head.0 && allowed.left {
        Direction::Left
    } else if target.is_some() && target.unwrap().1 > head.1 && allowed.up {
        Direction::Up
    } else if allowed.down {
        Direction::Down
    } else if allowed.first().is_some() {
        allowed.first().unwrap()
    } else {
        Direction::Up
    }
}

/// The set of directions in which the moving snake of `state` may step.
pub open spec fn legal(state: GameState) -> Allowed {
    Allowed {
        up: state.allows(Direction::Up),
        down: state.allows(Direction::Down),
        left: state.allows(Direction::Left),
        right: state.allows(Direction::Right),
    }
}

/// The move that `next_move` makes in `state`.
pub open spec fn chosen(state: GameState) -> Direction {
    ranked(state.you.head@, state.board.target(), legal(state))
}

/// Picks the move from `head` towards `target` among the directions in
/// `allowed`, by the fixed order of `ranked`.
pub fn rank(head: &Coord, target: Option<Coord>, allowed: &Allowed) -> (d: Direction)
    ensures
        d == ranked(
            head@,
            match target {
                Some(t) => Some(t@),
                None => None,
            },
            *allowed,
        ),
{
    match target {
        Some(t) => {
            if t.x > head.x && allowed.contains(&Direction::Right) {
                return Direction::Right;
            } else if t.x < head.x && allowed.contains(&Direction::Left) {
                return Direction::Left;
            } else if t.y > head.y && allowed.contains(&Direction::Up) {
                return Direction::Up;
            }
        },
        None => {},
    }
    if allowed.contains(&Direction::Down) {
        Direction::Down
    } else {
        match allowed.first_member() {
            Some(d) => d,
            None => Direction::Up,
        }
    }
}

/// Finds the directions in which the moving snake may step: those that lead
/// neither off the grid nor onto a body segment of any snake.
pub fn legal_moves(game_state: &GameState) -> (allowed: Allowed)
    ensures
        allowed == legal(*game_state),
        forall|dir: Direction| allowed@.contains(dir) == game_state.allows(dir),
{
    let directions = [Direction::Up, Direction::Down, Direction::Left, Direction::Right];
    let mut allowed = Allowed::all();
    let mut i: usize = 0;
    while i < 4
        invariant
            i <= 4,
            directions@ == seq![Direction::Up, Direction::Down, Direction::Left, Direction::Right],
            allowed.up == (i == 0 || game_state.allows(Direction::Up)),
            allowed.down == (i <= 1 || game_state.allows(Direction::Down)),
            allowed.left == (i <= 2 || game_state.allows(Direction::Left)),
            allowed.right == (i <= 3 || game_state.allows(Direction::Right)),
        decreases 4 - i,
    {
        let dir = directions[i];
        if !game_state.is_allowed(&dir) {
            allowed.remove(&dir);
        }
        i += 1;
    }
    allowed
}

/// Chooses the move of this turn.
///
/// Never fails: where there is no food the choice falls to the legal
/// directions alone, and where no direction is legal it is up.
pub fn next_move(game_state: &GameState) -> (d: Direction)
    ensures
        d == chosen(*game_state),
        !legal(*game_state).is_empty() ==> game_state.allows(d),
{
    let allowed = legal_moves(game_state);
    let target = game_state.board.first_food();
    rank(&game_state.you.head, target, &allowed)
}

} // verus!
