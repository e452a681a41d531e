//! A one-step move selector for a snake on a rectangular grid.
//!
//! Each turn is decided from a snapshot alone: the directions that lead into
//! a wall or into any snake's body are ruled out, and the remaining ones are
//! ranked by a fixed order that seeks the first food item along the x axis,
//! then along the y axis. Beside the selector stands the little that a server
//! needs to tell its requests apart.

pub mod coord;
pub mod router;
pub mod selector;
pub mod state;
pub mod theorems;

pub use coord::{Coord, Direction};
pub use router::{path_of, route, Route};
pub use selector::{legal_moves, next_move, rank, Allowed};
pub use state::{Battlesnake, Board, Game, GameState, SnakeInfo};
