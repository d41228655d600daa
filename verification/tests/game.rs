use tictactoe::{Coordinate, Game, GameError, GameStatus, Player};

fn to_coord_vec(arr: &[(usize, usize)]) -> Vec<Coordinate> {
    arr.iter().map(|x| Coordinate::new(x.0, x.1)).collect()
}

#[test]
fn test_one() {
    // Detects a 'downhill-diagonal' win
    let moves: Vec<_> = to_coord_vec(&[(0, 0), (2, 0), (1, 1), (2, 1), (2, 2)]);
    let game = Game::from(&moves).expect("Failed to create game.");
    assert_eq!(game.status(), GameStatus::Winner(Player::X));
}

#[test]
fn test_two() {
    // Detects an 'uphill-diagonal' win
    let moves = to_coord_vec(&[(0, 0), (1, 1), (0, 1), (0, 2), (1, 0), (2, 0)]);
    let game = Game::from(&moves).expect("Failed to create game.");
    assert_eq!(game.status(), GameStatus::Winner(Player::O));
}

#[test]
fn test_three() {
    // Returns 'Draw' when there is no winner and no moves remaining
    let moves = to_coord_vec(&[
        (0, 0),
        (1, 1),
        (2, 0),
        (1, 0),
        (1, 2),
        (2, 1),
        (0, 1),
        (0, 2),
        (2, 2),
    ]);
    let game = Game::from(&moves).expect("Failed to create game.");
    assert_eq!(game.status(), GameStatus::Draw);
}

#[test]
fn test_four() {
    // Returns 'Pending' even if there are enough moves remaining to change
    // the outcome later in the game
    let moves = to_coord_vec(&[(0, 0), (1, 1)]);
    let game = Game::from(&moves).expect("Failed to create game.");
    assert_eq!(game.status(), GameStatus::Pending(Player::X));
}

#[test]
fn test_five() {
    // Returns 'Pending' even if there are NOT enough moves remaining to
    // change the outcome later in the game
    let moves = to_coord_vec(&[(1, 1), (0, 0), (1, 2), (1, 0), (2, 0), (0, 2)]);
    let game = Game::from(&moves).expect("Failed to create game.");
    assert_eq!(game.status(), GameStatus::Pending(Player::X));
}

#[test]
fn test_six() {
    // Detects a 'horizontal' win
    let moves = to_coord_vec(&[(1, 1), (0, 0), (1, 0), (0, 1), (1, 2)]);
    let game = Game::from(&moves).expect("Failed to create game.");
    assert_eq!(game.status(), GameStatus::Winner(Player::X));
}

#[test]
fn test_seven() {
    // Detects a 'vertical' win
    let moves = to_coord_vec(&[(1, 1), (0, 2), (0, 0), (2, 2), (1, 0), (1, 2)]);
    let game = Game::from(&moves).expect("Failed to create game.");
    assert_eq!(game.status(), GameStatus::Winner(Player::O));
}

#[test]
fn test_eight() {
    // Returns an error when attempting to add a duplicate move
    let moves = to_coord_vec(&[(2, 2), (2, 2)]);
    let game = Game::from(&moves).expect_err("Expected to receive an error");
    assert_eq!(game, GameError::SpaceOccupied)
}

#[test]
fn fresh_game_is_pending_with_x_to_move() {
    let game = Game::new();
    assert_eq!(game.current_player(), Player::X);
    assert_eq!(game.count_occupied_spaces(), 0);
    assert_eq!(game.status(), GameStatus::Pending(Player::X));
    assert_eq!(game.get_winner(), None);
}

#[test]
fn board_carries_the_magic_square() {
    // Weights in row-major order, and every row, column and diagonal of the
    // square sums to 15.
    let game = Game::new();
    let spaces = game.iter();
    let values: Vec<u8> = spaces.iter().map(|s| s.value).collect();
    assert_eq!(values, vec![2, 7, 6, 9, 5, 1, 4, 3, 8]);
    for line in [
        [0, 1, 2],
        [3, 4, 5],
        [6, 7, 8],
        [0, 3, 6],
        [1, 4, 7],
        [2, 5, 8],
        [0, 4, 8],
        [2, 4, 6],
    ] {
        let total: u32 = line.iter().map(|&i| values[i] as u32).sum();
        assert_eq!(total, 15);
    }
}

#[test]
fn iter_yields_spaces_in_row_major_order() {
    let game = Game::new();
    let spaces = game.iter();
    assert_eq!(spaces.len(), 9);
    for (i, space) in spaces.iter().enumerate() {
        let (row, col) = space.get_coordinate().get_tuple();
        assert_eq!(row, i / 3);
        assert_eq!(col, i % 3);
        assert_eq!(space.get_mark(), None);
    }
}

#[test]
fn moves_count_up_and_players_alternate() {
    let mut game = Game::new();
    let coords = to_coord_vec(&[(0, 0), (1, 1), (0, 1), (2, 2)]);
    let mut expected = Player::X;
    for (n, coord) in coords.into_iter().enumerate() {
        assert_eq!(game.current_player(), expected);
        assert_eq!(game.count_occupied_spaces(), n as u8);
        game.add_move(coord).expect("the space is unmarked");
        expected = match expected {
            Player::X => Player::O,
            Player::O => Player::X,
        };
    }
    assert_eq!(game.count_occupied_spaces(), 4);
    assert_eq!(game.current_player(), Player::X);
}

#[test]
fn occupied_space_rejects_resubmission_and_changes_nothing() {
    let mut game = Game::new();
    game.add_move(Coordinate::new(2, 2)).expect("the space is unmarked");
    assert_eq!(game.current_player(), Player::O);
    let err = game.add_move(Coordinate::new(2, 2));
    assert_eq!(err, Err(GameError::SpaceOccupied));
    // Only the first move toggled the player, and the mark is untouched.
    assert_eq!(game.current_player(), Player::O);
    assert_eq!(
        game.get_space(Coordinate::new(2, 2)).get_mark(),
        Some(Player::X)
    );
    assert_eq!(game.count_occupied_spaces(), 1);
}

#[test]
fn marks_belong_to_the_player_who_made_them() {
    let mut game = Game::new();
    game.add_move(Coordinate::new(0, 0)).expect("the space is unmarked");
    game.add_move(Coordinate::new(1, 1)).expect("the space is unmarked");
    assert_eq!(game.get_space(Coordinate::new(0, 0)).get_mark(), Some(Player::X));
    assert_eq!(game.get_space(Coordinate::new(1, 1)).get_mark(), Some(Player::O));
    assert_eq!(game.get_space(Coordinate::new(0, 1)).get_mark(), None);
}

#[test]
fn player_scores_list_occupied_weights_in_row_major_order() {
    let moves = to_coord_vec(&[(0, 0), (1, 1), (2, 2)]);
    let game = Game::from(&moves).expect("Failed to create game.");
    assert_eq!(game.get_player_scores(Player::X), vec![2, 8]);
    assert_eq!(game.get_player_scores(Player::O), vec![5]);
}

#[test]
fn winner_stays_after_a_further_move() {
    // X completes the top row; a later legal move by O does not change the
    // outcome.
    let moves = to_coord_vec(&[(0, 0), (1, 0), (0, 1), (1, 1), (0, 2)]);
    let mut game = Game::from(&moves).expect("Failed to create game.");
    assert_eq!(game.status(), GameStatus::Winner(Player::X));
    game.add_move(Coordinate::new(2, 2)).expect("the space is unmarked");
    assert_eq!(game.status(), GameStatus::Winner(Player::X));
}

#[test]
fn drawn_board_rejects_every_move() {
    let moves = to_coord_vec(&[
        (0, 0),
        (1, 1),
        (2, 0),
        (1, 0),
        (1, 2),
        (2, 1),
        (0, 1),
        (0, 2),
        (2, 2),
    ]);
    let mut game = Game::from(&moves).expect("Failed to create game.");
    assert_eq!(game.status(), GameStatus::Draw);
    for row in 0..3 {
        for col in 0..3 {
            let result = game.add_move(Coordinate::new(row, col));
            assert_eq!(result, Err(GameError::SpaceOccupied));
        }
    }
    assert_eq!(game.status(), GameStatus::Draw);
}

#[test]
fn from_index_maps_row_major_and_rejects_out_of_range() {
    assert_eq!(Coordinate::from_index(0).map(|c| c.get_tuple()), Ok((0, 0)));
    assert_eq!(Coordinate::from_index(4).map(|c| c.get_tuple()), Ok((1, 1)));
    assert_eq!(Coordinate::from_index(5).map(|c| c.get_tuple()), Ok((1, 2)));
    assert_eq!(Coordinate::from_index(8).map(|c| c.get_tuple()), Ok((2, 2)));
    assert_eq!(
        Coordinate::from_index(9).map(|c| c.get_tuple()),
        Err(GameError::InvalidSpace)
    );
    assert_eq!(
        Coordinate::from_index(100).map(|c| c.get_tuple()),
        Err(GameError::InvalidSpace)
    );
}

#[test]
fn toggle_switches_between_the_players() {
    let mut player = Player::X;
    player.toggle();
    assert_eq!(player, Player::O);
    player.toggle();
    assert_eq!(player, Player::X);
}

#[test]
fn player_and_error_messages() {
    assert_eq!(Player::X.name(), "X");
    assert_eq!(Player::O.name(), "O");
    assert_eq!(
        GameError::SpaceOccupied.message(),
        "Cannot add a move to an already occupied space"
    );
    assert_eq!(
        GameError::InvalidSpace.message(),
        "That space does not exist on the board"
    );
}
