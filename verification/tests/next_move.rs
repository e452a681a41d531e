use battlesnake::Direction::{Down, Left, Right, Up};
use battlesnake::{next_move, Battlesnake, Coord, GameState};

fn board_11(food: Vec<Coord>) -> GameState {
    let mut game_state: GameState = Default::default();
    game_state.board.height = 11;
    game_state.board.width = 11;
    game_state.board.food = food;
    game_state
}

fn place(game_state: &mut GameState, body: Vec<Coord>) {
    game_state.you.head = body[0].clone();
    game_state.you.body = body;
    game_state.board.snakes = vec![game_state.you.clone()];
}

fn snake(body: Vec<Coord>) -> Battlesnake {
    Battlesnake { head: body[0].clone(), body, ..Default::default() }
}

#[test]
fn moves_towards_food() {
    let mut game_state: GameState = Default::default();
    game_state.board.height = 11;
    game_state.board.width = 11;
    game_state.board.food = vec![Coord { x: 5, y: 5 }];
    game_state.you.head = Coord { x: 5, y: 3 };
    game_state.board.snakes = vec![game_state.you.clone()];
    assert_eq!(next_move(&game_state), Up);
    game_state.you.head = Coord { x: 5, y: 7 };
    game_state.board.snakes = vec![game_state.you.clone()];
    assert_eq!(next_move(&game_state), Down);
    game_state.you.head = Coord { x: 7, y: 5 };
    game_state.board.snakes = vec![game_state.you.clone()];
    assert_eq!(next_move(&game_state), Left);
    game_state.you.head = Coord { x: 3, y: 5 };
    game_state.board.snakes = vec![game_state.you.clone()];
    assert_eq!(next_move(&game_state), Right);
}

#[test]
fn avoids_self() {
    let mut game_state: GameState = Default::default();
    game_state.board.height = 11;
    game_state.board.width = 11;
    game_state.board.food = vec![Coord { x: 5, y: 5 }];
    game_state.you.head = Coord { x: 5, y: 3 };
    game_state.you.body = vec![Coord { x: 5, y: 3 }, Coord { x: 5, y: 4 }];
    game_state.board.snakes = vec![game_state.you.clone()];
    assert_ne!(next_move(&game_state), Up);
    game_state.you.head = Coord { x: 5, y: 7 };
    game_state.you.body = vec![Coord { x: 5, y: 7 }, Coord { x: 5, y: 6 }];
    game_state.board.snakes = vec![game_state.you.clone()];
    assert_ne!(next_move(&game_state), Down);
    game_state.you.head = Coord { x: 7, y: 5 };
    game_state.you.body = vec![Coord { x: 7, y: 5 }, Coord { x: 6, y: 5 }];
    game_state.board.snakes = vec![game_state.you.clone()];
    assert_ne!(next_move(&game_state), Left);
    game_state.you.head = Coord { x: 3, y: 5 };
    game_state.you.body = vec![Coord { x: 3, y: 5 }, Coord { x: 4, y: 5 }];
    game_state.board.snakes = vec![game_state.you.clone()];
    assert_ne!(next_move(&game_state), Right);
}

#[test]
fn avoids_walls() {
    let mut game_state: GameState = Default::default();
    game_state.board.height = 11;
    game_state.board.width = 11;
    game_state.board.food = vec![Coord { x: 5, y: 5 }];
    game_state.you.head = Coord { x: 5, y: 10 };
    game_state.you.body = vec![Coord { x: 5, y: 10 }, Coord { x: 5, y: 9 }];
    game_state.board.snakes = vec![game_state.you.clone()];
    assert_ne!(next_move(&game_state), Up);
    game_state.you.head = Coord { x: 5, y: 0 };
    game_state.you.body = vec![Coord { x: 5, y: 0 }, Coord { x: 5, y: 1 }];
    game_state.board.snakes = vec![game_state.you.clone()];
    assert_ne!(next_move(&game_state), Down);
    game_state.you.head = Coord { x: 0, y: 5 };
    game_state.you.body = vec![Coord { x: 0, y: 5 }, Coord { x: 1, y: 5 }];
    game_state.board.snakes = vec![game_state.you.clone()];
    assert_ne!(next_move(&game_state), Left);
    game_state.you.head = Coord { x: 10, y: 5 };
    game_state.you.body = vec![Coord { x: 10, y: 5 }, Coord { x: 9, y: 5 }];
    game_state.board.snakes = vec![game_state.you.clone()];
    assert_ne!(next_move(&game_state), Right);
}

#[test]
fn avoids_others() {
    let mut game_state: GameState = Default::default();
    game_state.board.height = 11;
    game_state.board.width = 11;
    game_state.board.food = vec![Coord { x: 5, y: 5 }];
    game_state.you.head = Coord { x: 5, y: 3 };
    game_state.you.body = vec![Coord { x: 5, y: 3 }, Coord { x: 5, y: 2 }];
    let other = Battlesnake {
        head: Coord { x: 5, y: 4 },
        body: vec![
            Coord { x: 5, y: 4 },
            Coord { x: 4, y: 4 },
            Coord { x: 4, y: 3 },
        ],
        ..Default::default()
    };
    game_state.board.snakes = vec![game_state.you.clone(), other];
    assert_eq!(next_move(&game_state), Right);
}

#[test]
fn own_neck_above_gives_the_fallback_down() {
    let mut game_state = board_11(vec![Coord { x: 5, y: 5 }]);
    place(&mut game_state, vec![Coord { x: 5, y: 3 }, Coord { x: 5, y: 4 }]);
    assert_eq!(next_move(&game_state), Down);
}

#[test]
fn sideways_comes_before_vertical() {
    let mut game_state = board_11(vec![Coord { x: 8, y: 9 }]);
    place(&mut game_state, vec![Coord { x: 2, y: 2 }]);
    assert_eq!(next_move(&game_state), Right);
    game_state.board.food = vec![Coord { x: 0, y: 9 }];
    assert_eq!(next_move(&game_state), Left);
}

#[test]
fn only_the_first_food_counts() {
    let mut game_state = board_11(vec![Coord { x: 1, y: 5 }, Coord { x: 9, y: 5 }]);
    place(&mut game_state, vec![Coord { x: 5, y: 5 }]);
    assert_eq!(next_move(&game_state), Left);
}

#[test]
fn blocked_sideways_step_falls_to_the_later_rules() {
    // Food to the right and above; right is taken by another snake.
    let mut game_state = board_11(vec![Coord { x: 8, y: 8 }]);
    place(&mut game_state, vec![Coord { x: 5, y: 5 }]);
    game_state.board.snakes.push(snake(vec![Coord { x: 6, y: 5 }]));
    assert_eq!(next_move(&game_state), Up);
    // Food to the right on the same row: nothing seeks it, down is taken.
    game_state.board.food = vec![Coord { x: 8, y: 5 }];
    assert_eq!(next_move(&game_state), Down);
    // Food to the right and above, right and up both taken: down, away from it.
    game_state.board.food = vec![Coord { x: 8, y: 8 }];
    game_state.board.snakes.push(snake(vec![Coord { x: 5, y: 6 }]));
    assert_eq!(next_move(&game_state), Down);
}

#[test]
fn standing_on_food_goes_down() {
    let mut game_state = board_11(vec![Coord { x: 5, y: 5 }]);
    place(&mut game_state, vec![Coord { x: 5, y: 5 }]);
    assert_eq!(next_move(&game_state), Down);
}

#[test]
fn standing_on_food_with_down_taken_goes_to_the_first_legal() {
    let mut game_state = board_11(vec![Coord { x: 5, y: 5 }]);
    place(&mut game_state, vec![Coord { x: 5, y: 5 }, Coord { x: 5, y: 4 }]);
    assert_eq!(next_move(&game_state), Up);
    game_state.board.snakes.push(snake(vec![Coord { x: 5, y: 6 }]));
    assert_eq!(next_move(&game_state), Left);
    game_state.board.snakes.push(snake(vec![Coord { x: 4, y: 5 }]));
    assert_eq!(next_move(&game_state), Right);
}

#[test]
fn boxed_in_answers_up() {
    let mut game_state: GameState = Default::default();
    game_state.board.height = 2;
    game_state.board.width = 1;
    game_state.board.food = vec![Coord { x: 0, y: 0 }];
    place(&mut game_state, vec![Coord { x: 0, y: 0 }, Coord { x: 0, y: 1 }]);
    assert_eq!(next_move(&game_state), Up);
}

#[test]
fn boxed_in_by_snakes_answers_up() {
    let mut game_state = board_11(vec![Coord { x: 9, y: 9 }]);
    place(&mut game_state, vec![Coord { x: 5, y: 5 }]);
    game_state.board.snakes.push(snake(vec![
        Coord { x: 5, y: 6 },
        Coord { x: 6, y: 5 },
        Coord { x: 5, y: 4 },
        Coord { x: 4, y: 5 },
    ]));
    assert_eq!(next_move(&game_state), Up);
}

#[test]
fn without_food_the_choice_is_among_the_legal_steps() {
    let mut game_state = board_11(vec![]);
    place(&mut game_state, vec![Coord { x: 5, y: 5 }]);
    assert_eq!(next_move(&game_state), Down);
    place(&mut game_state, vec![Coord { x: 5, y: 0 }]);
    assert_eq!(next_move(&game_state), Up);
    place(&mut game_state, vec![Coord { x: 5, y: 0 }, Coord { x: 5, y: 1 }]);
    assert_eq!(next_move(&game_state), Left);
}

#[test]
fn hazards_do_not_block() {
    let mut game_state = board_11(vec![Coord { x: 8, y: 5 }]);
    place(&mut game_state, vec![Coord { x: 5, y: 5 }]);
    game_state.board.hazards = vec![Coord { x: 6, y: 5 }];
    assert_eq!(next_move(&game_state), Right);
}

#[test]
fn the_same_snapshot_gets_the_same_move() {
    let mut game_state = board_11(vec![Coord { x: 5, y: 5 }]);
    place(&mut game_state, vec![Coord { x: 5, y: 5 }, Coord { x: 5, y: 4 }]);
    let first = next_move(&game_state);
    assert_eq!(next_move(&game_state), first);
    // What the selector does not read makes no difference.
    game_state.turn = 17;
    game_state.you.health = 3;
    game_state.board.hazards = vec![Coord { x: 1, y: 1 }];
    assert_eq!(next_move(&game_state), first);
}

#[test]
fn a_head_at_the_edge_of_the_integers_does_not_overflow() {
    let mut game_state = board_11(vec![Coord { x: 0, y: 0 }]);
    place(&mut game_state, vec![Coord { x: i32::MAX, y: i32::MAX }]);
    assert_eq!(next_move(&game_state), Up);
    place(&mut game_state, vec![Coord { x: i32::MIN, y: i32::MIN }]);
    assert_eq!(next_move(&game_state), Up);
    game_state.board.width = i32::MAX;
    game_state.board.height = i32::MAX;
    place(&mut game_state, vec![Coord { x: i32::MAX, y: 0 }]);
    assert_eq!(next_move(&game_state), Left);
    place(&mut game_state, vec![Coord { x: i32::MAX - 1, y: i32::MAX - 1 }]);
    assert_eq!(next_move(&game_state), Left);
}

#[test]
fn a_zero_sized_board_has_no_legal_step() {
    let mut game_state: GameState = Default::default();
    game_state.board.food = vec![Coord { x: 3, y: 3 }];
    assert_eq!(next_move(&game_state), Up);
}
