use ttt::{Game, GameState, InvalidMove, Outcome, Player, Tile};

#[test]
fn new_game_waits_for_x() {
    let g = Game::new();
    assert_eq!(g.state, GameState::AwaitingMove(Player::X));
    assert!(g.board.tiles.iter().all(|t| *t == Tile::Empty));
}

#[test]
fn legal_move_passes_the_turn() {
    let mut g = Game::new();
    assert_eq!(g.play(4), Ok(()));
    assert_eq!(g.state, GameState::AwaitingMove(Player::O));
    assert!(g.board.tiles[4] == Tile::X);
    assert_eq!(g.play(0), Ok(()));
    assert_eq!(g.state, GameState::AwaitingMove(Player::X));
    assert!(g.board.tiles[0] == Tile::O);
}

#[test]
fn move_on_occupied_cell_keeps_the_turn() {
    let mut g = Game::new();
    assert_eq!(g.play(4), Ok(()));
    let before = g.board.tiles;
    assert_eq!(g.play(4), Err(InvalidMove));
    assert_eq!(g.state, GameState::AwaitingMove(Player::O));
    assert_eq!(g.board.tiles, before);
    assert_eq!(g.play(9), Err(InvalidMove));
    assert_eq!(g.state, GameState::AwaitingMove(Player::O));
}

#[test]
fn turns_alternate_over_a_whole_game() {
    let mut g = Game::new();
    let moves = [0usize, 0, 4, 1, 1, 3, 8, 5];
    let mut expected = Player::X;
    for m in moves {
        let was = g.state;
        match g.play(m) {
            Ok(()) => {
                assert_eq!(was, GameState::AwaitingMove(expected));
                expected = expected.next();
                if let GameState::AwaitingMove(p) = g.state {
                    assert_eq!(p, expected);
                }
            }
            Err(InvalidMove) => assert_eq!(g.state, was),
        }
    }
    assert_eq!(g.state, GameState::Finished(Outcome::O));
}

#[test]
fn winning_move_finishes_the_game() {
    let mut g = Game::new();
    for m in [0usize, 3, 1, 4, 2] {
        assert_eq!(g.play(m), Ok(()));
    }
    assert_eq!(g.state, GameState::Finished(Outcome::X));
    assert_eq!(g.play(5), Err(InvalidMove));
    assert_eq!(g.state, GameState::Finished(Outcome::X));
}

#[test]
fn filling_the_board_without_a_line_is_a_tie() {
    let mut g = Game::new();
    for m in [0usize, 1, 2, 4, 3, 5, 7, 6, 8] {
        assert_eq!(g.play(m), Ok(()));
    }
    assert_eq!(g.state, GameState::Finished(Outcome::Tie));
}
