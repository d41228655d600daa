use tictactoe::{Coordinate, Cursor, Direction, Game, Player};

#[test]
fn shift_wraps_around_every_edge() {
    // From row 0 an upward step wraps to row 2, and from row 2 a downward
    // step wraps to row 0; columns wrap the same way under Left and Right.
    for c in 0..3 {
        let mut cursor = Cursor::new(Player::X, 0, c);
        cursor.shift(Direction::Up);
        assert_eq!(cursor.get_coordinate().get_tuple(), (2, c));

        let mut cursor = Cursor::new(Player::X, 2, c);
        cursor.shift(Direction::Down);
        assert_eq!(cursor.get_coordinate().get_tuple(), (0, c));
    }
    for r in 0..3 {
        let mut cursor = Cursor::new(Player::O, r, 0);
        cursor.shift(Direction::Left);
        assert_eq!(cursor.get_coordinate().get_tuple(), (r, 2));

        let mut cursor = Cursor::new(Player::O, r, 2);
        cursor.shift(Direction::Right);
        assert_eq!(cursor.get_coordinate().get_tuple(), (r, 0));
    }
}

#[test]
fn shift_moves_one_cell_away_from_the_edges() {
    let mut cursor = Cursor::new(Player::X, 1, 1);
    cursor.shift(Direction::Up);
    assert_eq!(cursor.get_coordinate().get_tuple(), (0, 1));
    cursor.shift(Direction::Right);
    assert_eq!(cursor.get_coordinate().get_tuple(), (0, 2));
    cursor.shift(Direction::Down);
    assert_eq!(cursor.get_coordinate().get_tuple(), (1, 2));
    cursor.shift(Direction::Left);
    assert_eq!(cursor.get_coordinate().get_tuple(), (1, 1));
}

#[test]
fn first_available_finds_the_first_unmarked_space() {
    let mut game = Game::new();
    let cursor = Cursor::first_available(&game).expect("the board is empty");
    assert_eq!(cursor.get_coordinate().get_tuple(), (0, 0));

    game.add_move(Coordinate::new(0, 0)).expect("the space is unmarked");
    game.add_move(Coordinate::new(0, 1)).expect("the space is unmarked");
    let cursor = Cursor::first_available(&game).expect("spaces remain");
    assert_eq!(cursor.get_coordinate().get_tuple(), (0, 2));
}

#[test]
fn first_available_belongs_to_the_current_player() {
    let mut game = Game::new();
    game.add_move(Coordinate::new(0, 0)).expect("the space is unmarked");
    // One move has been made, so it is O's turn and the cursor is O's.
    let cursor = Cursor::first_available(&game).expect("spaces remain");
    assert_eq!(game.current_player(), Player::O);
    assert_eq!(cursor.get_coordinate().get_tuple(), (0, 1));
}

#[test]
fn first_available_is_none_on_a_full_board() {
    let coords = [
        (0, 0),
        (1, 1),
        (2, 0),
        (1, 0),
        (1, 2),
        (2, 1),
        (0, 1),
        (0, 2),
        (2, 2),
    ];
    let mut game = Game::new();
    for (row, col) in coords {
        game.add_move(Coordinate::new(row, col)).expect("the space is unmarked");
    }
    assert!(Cursor::first_available(&game).is_none());
}
