//! Two-player tic-tac-toe: the board, the turn-taking game, the wire
//! protocol between relay server and clients, and the decisions of both ends.

pub mod board;
pub mod client;
pub mod game;
pub mod protocol;
pub mod relay;

pub use board::{Board, InvalidMove, Outcome, Player, Tile};
pub use client::{cell_at, Client, Phase};
pub use game::{Game, GameState};
pub use protocol::{Event, ProtocolError};
pub use relay::Delivery;
