//! Plain values that describe a chess position as the client reads it.

use vstd::prelude::*;

verus! {

/// Side of a piece or of the player to move.
#[derive(Clone, Copy, Debug, PartialEq, Eq, Structural)]
pub enum Color {
    White,
    Black,
}

/// Kind of a chess piece.
#[derive(Clone, Copy, Debug, PartialEq, Eq, Structural)]
pub enum PieceType {
    Pawn,
    Knight,
    Bishop,
    Rook,
    Queen,
    King,
}

/// A piece standing on a square.
#[derive(Clone, Copy, Debug, PartialEq, Eq, Structural)]
pub struct Piece {
    pub color: Color,
    pub piece_type: PieceType,
}

/// A square given by its file `x` and its rank `y`, both counted from 0.
#[derive(Clone, Copy, Debug, PartialEq, Eq, Structural)]
pub struct Position {
    pub x: u8,
    pub y: u8,
}

impl Position {
    /// The square at file `x` and rank `y`.
    pub fn new(x: u8, y: u8) -> (p: Position)
        ensures
            p.x == x,
            p.y == y,
    {
        Position { x, y }
    }

    /// Both coordinates lie on the 8 by 8 board.
    pub open spec fn on_board(self) -> bool {
        self.x < 8 && self.y < 8
    }

    /// Index of the square in a rank-major array whose first row is rank 0.
    pub open spec fn index(self) -> int {
        self.y * 8 + self.x
    }
}

/// Phase of the game as the engine reports it.
#[derive(Clone, Copy, Debug, PartialEq, Eq, Structural)]
pub enum GameStatus {
    Playing,
    Check(Color),
    Checkmate(Color),
    Draw,
    AwaitingPromotion(Position),
}

/// Whether the engine accepted a move or a promotion.
#[derive(Clone, Copy, Debug, PartialEq, Eq, Structural)]
pub enum MoveOutcome {
    Allowed,
    Refused,
}

/// Snapshot of the engine: its 64 squares (rank 7 first), the side to move
/// and the phase of the game.
#[derive(Clone, Debug)]
pub struct GameView {
    pub squares: Vec<Option<Piece>>,
    pub turn: Color,
    pub status: GameStatus,
}

impl GameView {
    /// The snapshot holds one entry per square, and a pawn waiting for
    /// promotion stands on the board.
    pub open spec fn wf(&self) -> bool {
        &&& self.squares@.len() == 64
        &&& self.status matches GameStatus::AwaitingPromotion(p) ==> p.on_board()
    }
}

} // verus!
