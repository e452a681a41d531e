//! The snapshot of one turn: the board, the snakes on it, and the snake that
//! is to move.

use crate::coord::{Coord, Direction};
use std::collections::HashMap;
use vstd::prelude::*;

verus! {

/// The fixed record by which the snake introduces itself.
pub struct SnakeInfo<'a> {
    pub apiversion: &'a str,
    pub author: &'a str,
    pub color: &'a str,
    pub head: &'a str,
    pub tail: &'a str,
    pub version: &'a str,
}

impl Default for SnakeInfo<'_> {
    fn default() -> (info: Self)
        ensures
            info.apiversion@ == "1"@,
            info.author@ == "jreyes33"@,
            info.color@ == "#669d83"@,
            info.head@ == "dead"@,
            info.tail@ == "hook"@,
            info.version@ == "0.1.0"@,
    {
        SnakeInfo {
            apiversion: "1",
            author: "jreyes33",
            color: "#669d83",
            head: "dead",
            tail: "hook",
            version: "0.1.0",
        }
    }
}

/// What is known of the game a turn belongs to.
pub struct Game {
    pub id: String,
    pub ruleset: HashMap<String, String>,
    pub timeout: u32,
}

impl Default for Game {
    fn default() -> (g: Game)
        ensures
            g.id@ == Seq::<char>::empty(),
            g.ruleset@ == Map::<String, String>::empty(),
            g.timeout == 0,
    {
        Game { id: String::new(), ruleset: HashMap::new(), timeout: 0 }
    }
}

/// A snake: its body from the head on, and what the server reports of it.
#[derive(Clone)]
pub struct Battlesnake {
    pub id: String,
    pub name: String,
    pub health: u32,
    pub body: Vec<Coord>,
    pub head: Coord,
    pub length: u32,
    pub latency: String,
}

impl Default for Battlesnake {
    fn default() -> (s: Battlesnake)
        ensures
            s.id@ == Seq::<char>::empty(),
            s.name@ == Seq::<char>::empty(),
            s.health == 0,
            s.body@ == Seq::<Coord>::empty(),
            s.head@ == (0int, 0int),
            s.length == 0,
            s.latency@ == Seq::<char>::empty(),
    {
        Battlesnake {
            id: String::new(),
            name: String::new(),
            health: 0,
            body: Vec::new(),
            head: Coord::default(),
            length: 0,
            latency: String::new(),
        }
    }
}

impl Battlesnake {
    /// The cells of the body, head first.
    pub open spec fn cells(self) -> Seq<(int, int)> {
        self.body@.map_values(|c: Coord| c@)
    }

    /// Whether some segment of the body lies on `cell`.
    pub open spec fn covers(self, cell: (int, int)) -> bool {
        self.cells().contains(cell)
    }

    /// Tells whether some segment of the body lies on `cell`.
    pub fn occupies(&self, cell: &Coord) -> (b: bool)
        ensures
            b == self.covers(cell@),
    {
        let mut j: usize = 0;
        while j < self.body.len()
            invariant
                j <= self.body@.len(),
                forall|k: int| 0 <= k < j ==> self.cells()[k] != cell@,
            decreases self.body@.len() - j,
        {
            if self.body[j].x == cell.x && self.body[j].y == cell.y {
                assert(self.cells()[j as int] == cell@);
                return true;
            }
            j += 1;
        }
        false
    }
}

/// The grid with everything that lies on it.
pub struct Board {
    pub height: i32,
    pub width: i32,
    pub food: Vec<Coord>,
    pub hazards: Vec<Coord>,
    pub snakes: Vec<Battlesnake>,
}

impl Default for Board {
    fn default() -> (b: Board)
        ensures
            b.height == 0,
            b.width == 0,
            b.food@ == Seq::<Coord>::empty(),
            b.hazards@ == Seq::<Coord>::empty(),
            b.snakes@ == Seq::<Battlesnake>::empty(),
    {
        Board { height: 0, width: 0, food: Vec::new(), hazards: Vec::new(), snakes: Vec::new() }
    }
}

impl Board {
    /// Whether `cell` lies on the grid.
    pub open spec fn inside(self, cell: (int, int)) -> bool {
        0 <= cell.0 < self.width && 0 <= cell.1 < self.height
    }

    /// Whether a body segment of any snake on the board lies on `cell`.
    pub open spec fn occupied(self, cell: (int, int)) -> bool {
        exists|i: int| 0 <= i < self.snakes@.len() && #[trigger] self.snakes@[i].covers(cell)
    }

    /// The cell to make for: the first food item, if there is any food.
    pub open spec fn target(self) -> Option<(int, int)> {
        if self.food@.len() > 0 {
            Some(self.food@[0]@)
        } else {
            None
        }
    }

    /// Tells whether `cell` lies on the grid.
    pub fn contains(&self, cell: &Coord) -> (b: bool)
        ensures
            b == self.inside(cell@),
    {
        0 <= cell.x && cell.x < self.width && 0 <= cell.y && cell.y < self.height
    }

    /// Tells whether a body segment of any snake lies on `cell`.
    pub fn is_occupied(&self, cell: &Coord) -> (b: bool)
        ensures
            b == self.occupied(cell@),
    {
        let mut i: usize = 0;
        while i < self.snakes.len()
            invariant
                i <= self.snakes@.len(),
                forall|k: int| 0 <= k < i ==> !(#[trigger] self.snakes@[k].covers(cell@)),
            decreases self.snakes@.len() - i,
        {
            if self.snakes[i].occupies(cell) {
                return true;
            }
            i += 1;
        }
        false
    }

    /// The first food item, if there is any food.
    pub fn first_food(&self) -> (t: Option<Coord>)
        ensures
            match t {
                Some(c) => self.target() == Some(c@),
                None => self.target().is_none(),
            },
    {
        if self.food.len() > 0 {
            Some(self.food[0])
        } else {
            None
        }
    }
}

/// Everything the server tells about one turn.
pub struct GameState {
    pub turn: u32,
    pub game: Game,
    pub board: Board,
    pub you: Battlesnake,
}

impl Default for GameState {
    fn default() -> (s: GameState)
        ensures
            s.turn == 0,
            s.board.height == 0,
            s.board.width == 0,
            s.board.food@ == Seq::<Coord>::empty(),
            s.board.hazards@ == Seq::<Coord>::empty(),
            s.board.snakes@ == Seq::<Battlesnake>::empty(),
            s.you.body@ == Seq::<Coord>::empty(),
            s.you.head@ == (0int, 0int),
    {
        GameState {
            turn: 0,
            game: Game::default(),
            board: Board::default(),
            you: Battlesnake::default(),
        }
    }
}

impl GameState {
    /// Whether the moving snake may step in direction `dir`: the cell it
    /// would enter lies on the grid and no snake's body lies on it.
    pub open spec fn allows(self, dir: Direction) -> bool {
        let cell = self.you.head.neighbor(dir);
        self.board.inside(cell) && !self.board.occupied(cell)
    }

    /// Tells whether the moving snake may step in direction `dir`.
    pub fn is_allowed(&self, dir: &Direction) -> (b: bool)
        ensures
            b == self.allows(*dir),
    {
        if self.you.head.can_go(dir) {
            let next = self.you.head.go(dir);
            self.board.contains(&next) && !self.board.is_occupied(&next)
        } else {
            false
        }
    }
}

} // verus!
