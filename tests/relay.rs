use ttt::{Delivery, Event, Game, GameState, Outcome, Player};

fn d(to: Player, event: Event) -> Delivery {
    Delivery { to, event }
}

#[test]
fn opening_gives_x_the_turn() {
    assert_eq!(Game::new().opening(), vec![d(Player::X, Event::Turn)]);
}

#[test]
fn scripted_game_ends_with_a_win_for_x() {
    let (x, o) = (Player::X, Player::O);
    let mut g = Game::new();
    let played = |player, pos| Event::Played { player, pos };
    let script = [(x, 0usize), (o, 3), (x, 1), (o, 4)];
    for (p, i) in script {
        assert_eq!(
            g.receive(p, Event::Play(i)),
            vec![d(p, played(p, i)), d(p.next(), played(p, i)), d(p.next(), Event::Turn)]
        );
    }
    let last = g.receive(x, Event::Play(2));
    assert_eq!(
        last,
        vec![
            d(x, played(x, 2)),
            d(o, played(x, 2)),
            d(x, Event::End(Outcome::X)),
            d(o, Event::End(Outcome::X)),
        ]
    );
    assert!(last.iter().all(|m| m.event != Event::Turn));
    assert_eq!(g.state, GameState::Finished(Outcome::X));
    assert_eq!(g.receive(o, Event::Play(5)), vec![]);
}

#[test]
fn move_on_occupied_cell_is_dropped() {
    let mut g = Game::new();
    g.receive(Player::X, Event::Play(4));
    let before = g.board.tiles;
    assert_eq!(g.receive(Player::O, Event::Play(4)), vec![]);
    assert_eq!(g.board.tiles, before);
    assert_eq!(g.state, GameState::AwaitingMove(Player::O));
    assert_eq!(
        g.receive(Player::O, Event::Play(0)).last(),
        Some(&d(Player::X, Event::Turn))
    );
}

#[test]
fn move_out_of_turn_is_dropped() {
    let mut g = Game::new();
    assert_eq!(g.receive(Player::O, Event::Play(0)), vec![]);
    assert_eq!(g.state, GameState::AwaitingMove(Player::X));
    assert!(g.board.tiles.iter().all(|t| *t == ttt::Tile::Empty));
}

#[test]
fn other_messages_are_dropped() {
    let mut g = Game::new();
    assert_eq!(g.receive(Player::X, Event::Turn), vec![]);
    assert_eq!(g.receive(Player::X, Event::End(Outcome::X)), vec![]);
    assert_eq!(g.receive(Player::X, Event::Played { player: Player::X, pos: 0 }), vec![]);
    assert_eq!(g.receive(Player::X, Event::Play(9)), vec![]);
    assert_eq!(g.state, GameState::AwaitingMove(Player::X));
}
