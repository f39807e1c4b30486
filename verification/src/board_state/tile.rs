pub use crate::board_state::piece::Piece;

use crate::board_state::in_bounds;
use crate::board_state::piece::symbol_of;
use crate::board_state::piece::symbol_utf_of;
use vstd::prelude::*;

verus! {

/// One square of the board: its coordinates and, possibly, the piece that
/// stands on it. Within a board, a tile's stored position always equals its
/// coordinates in the grid; tiles are replaced wholesale on every mutation.
#[derive(Debug, Clone, Copy, PartialEq, Eq)]
pub struct Tile {
    pub piece: Option<Piece>,
    pub pos: (usize, usize),
}

/// The single character that renders tile `t`: its piece's letter, or `'.'`
/// for an empty square.
pub open spec fn tile_symbol(t: Tile) -> char {
    match t.piece {
        Option::Some(p) => symbol_of(p.piece_type),
        Option::None => '.',
    }
}

/// As `tile_symbol`, with the player-distinguishing glyphs.
pub open spec fn tile_symbol_utf(t: Tile) -> char {
    match t.piece {
        Option::Some(p) => symbol_utf_of(p),
        Option::None => '.',
    }
}

impl Tile {
    /// Whether this tile's stored position lies on the 8x8 board.
    pub open spec fn on_board(self) -> bool {
        in_bounds(self.pos.0 as int, self.pos.1 as int)
    }

    pub fn new(piece: Option<Piece>, pos: (usize, usize)) -> (t: Tile)
        ensures
            t == (Tile { piece, pos }),
    {
        Tile { piece, pos }
    }

    pub fn get_piece(&self) -> (p: &Option<Piece>)
        ensures
            *p == self.piece,
    {
        &self.piece
    }

    pub fn get_pos(&self) -> (p: &(usize, usize))
        ensures
            *p == self.pos,
    {
        &self.pos
    }

    pub fn symbol(&self) -> (c: char)
        ensures
            c == tile_symbol(*self),
    {
        match self.piece {
            Option::Some(piece) => piece.symbol(),
            Option::None => '.',
        }
    }

    pub fn symbol_utf(&self) -> (c: char)
        ensures
            c == tile_symbol_utf(*self),
    {
        match self.piece {
            Option::Some(piece) => piece.symbol_utf(),
            Option::None => '.',
        }
    }
}

} // verus!
