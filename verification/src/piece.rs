//! Piece and tile colors, piece kinds, and the piece value itself.

use vstd::prelude::*;

verus! {

/// A side of the game. The same two colors shade the tiles of the board.
#[derive(Clone, Copy, PartialEq, Eq, Structural, Debug)]
pub enum Color {
    Black,
    White,
}

/// The six kinds of chess piece. An empty cell is an occupant of
/// `Option::None`, not a kind of its own.
#[derive(Clone, Copy, PartialEq, Eq, Structural, Debug)]
pub enum PieceKind {
    Pawn,
    Knight,
    Rook,
    Bishop,
    Queen,
    King,
}

/// A piece on the board: a kind owned by a color.
#[derive(Clone, Copy, PartialEq, Eq, Structural, Debug)]
pub struct Piece {
    pub color: Color,
    pub kind: PieceKind,
}

} // verus!
