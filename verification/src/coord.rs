//! Grid cells and the four directions of travel.

use vstd::prelude::*;

verus! {

/// One of the four moves a snake can make.
#[derive(Clone, Copy, Debug, Eq, Hash, PartialEq, Structural)]
pub enum Direction {
    Up,
    Down,
    Left,
    Right,
}

impl Direction {
    /// Change of x made by one step in this direction.
    pub open spec fn dx(self) -> int {
        match self {
            Direction::Left => -1,
            Direction::Right => 1,
            _ => 0,
        }
    }

    /// Change of y made by one step in this direction.
    pub open spec fn dy(self) -> int {
        match self {
            Direction::Up => 1,
            Direction::Down => -1,
            _ => 0,
        }
    }

    /// The lower-case token by which a direction is written in a response.
    pub open spec fn spec_name(self) -> Seq<char> {
        match self {
            Direction::Up => "up"@,
            Direction::Down => "down"@,
            Direction::Left => "left"@,
            Direction::Right => "right"@,
        }
    }

    /// The lower-case token by which a direction is written in a response.
    pub fn name(&self) -> (s: &'static str)
        ensures
            s@ == self.spec_name(),
    {
        match self {
            Direction::Up => "up",
            Direction::Down => "down",
            Direction::Left => "left",
            Direction::Right => "right",
        }
    }
}

/// The address of a grid cell.
#[derive(Clone, Copy, Debug, Eq, Hash, PartialEq, Structural)]
pub struct Coord {
    pub x: i32,
    pub y: i32,
}

impl View for Coord {
    type V = (int, int);

    open spec fn view(&self) -> (int, int) {
        (self.x as int, self.y as int)
    }
}

impl Default for Coord {
    fn default() -> (c: Coord)
        ensures
            c.x == 0,
            c.y == 0,
    {
        Coord { x: 0, y: 0 }
    }
}

impl Coord {
    /// The cell one step from `self` in direction `dir`, as a pair of
    /// unbounded integers.
    pub open spec fn neighbor(self, dir: Direction) -> (int, int) {
        (self.x + dir.dx(), self.y + dir.dy())
    }

    /// Whether the neighbouring cell in direction `dir` has machine
    /// coordinates.
    pub open spec fn neighbor_fits(self, dir: Direction) -> bool {
        &&& i32::MIN <= self.neighbor(dir).0 <= i32::MAX
        &&& i32::MIN <= self.neighbor(dir).1 <= i32::MAX
    }

    /// Tells whether `go` may be called for `dir`.
    pub fn can_go(&self, dir: &Direction) -> (b: bool)
        ensures
            b == self.neighbor_fits(*dir),
    {
        match dir {
            Direction::Up => self.y < i32::MAX,
            Direction::Down => self.y > i32::MIN,
            Direction::Left => self.x > i32::MIN,
            Direction::Right => self.x < i32::MAX,
        }
    }

    /// The cell one step away in direction `dir`.
    pub fn go(&self, dir: &Direction) -> (next: Coord)
        requires
            self.neighbor_fits(*dir),
        ensures
            next@ == self.neighbor(*dir),
    {
        let Coord { x, y } = *self;
        match dir {
            Direction::Up => Coord { x, y: y + 1 },
            Direction::Down => Coord { x, y: y - 1 },
            Direction::Left => Coord { x: x - 1, y },
            Direction::Right => Coord { x: x + 1, y },
        }
    }
}

} // verus!
