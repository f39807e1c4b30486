pub use crate::board_state::player::Player;

use vstd::prelude::*;

verus! {

/// An immutable game piece: a piece type owned by a player.
#[derive(Debug, Clone, Copy, PartialEq, Eq, Structural)]
pub struct Piece {
    pub piece_type: PieceType,
    pub player: Player,
}

/// The six kinds of piece. King and Knight step to fixed offsets; Queen,
/// Rook and Bishop slide along rays; Pawn movement is a planned extension
/// and has no generator yet.
#[derive(Debug, Clone, Copy, PartialEq, Eq, Structural)]
pub enum PieceType {
    King,
    Queen,
    Rook,
    Knight,
    Bishop,
    Pawn,
}

/// The single ASCII letter that renders a piece of type `t`, the same for
/// both players.
pub open spec fn symbol_of(t: PieceType) -> char {
    match t {
        PieceType::King => 'K',
        PieceType::Queen => 'Q',
        PieceType::Rook => 'R',
        PieceType::Knight => 'N',
        PieceType::Bishop => 'B',
        PieceType::Pawn => 'p',
    }
}

/// The chess glyph that renders piece `p`; white and black pieces use
/// distinct glyphs.
pub open spec fn symbol_utf_of(p: Piece) -> char {
    match p.player {
        Player::White => match p.piece_type {
            PieceType::King => '\u{2654}',
            PieceType::Queen => '\u{2655}',
            PieceType::Rook => '\u{2656}',
            PieceType::Knight => '\u{2657}',
            PieceType::Bishop => '\u{2658}',
            PieceType::Pawn => '\u{2659}',
        },
        Player::Black => match p.piece_type {
            PieceType::King => '\u{265A}',
            PieceType::Queen => '\u{265B}',
            PieceType::Rook => '\u{265C}',
            PieceType::Knight => '\u{265D}',
            PieceType::Bishop => '\u{265E}',
            PieceType::Pawn => '\u{265F}',
        },
    }
}

impl Piece {
    pub fn new(piece_type: PieceType, player: Player) -> (p: Piece)
        ensures
            p == (Piece { piece_type, player }),
    {
        Piece { piece_type, player }
    }

    /// The ASCII letter for this piece; players are not distinguished.
    pub fn symbol(&self) -> (c: char)
        ensures
            c == symbol_of(self.piece_type),
    {
        match self.piece_type {
            PieceType::King => 'K',
            PieceType::Queen => 'Q',
            PieceType::Rook => 'R',
            PieceType::Knight => 'N',
            PieceType::Bishop => 'B',
            PieceType::Pawn => 'p',
        }
    }

    /// The chess glyph for this piece, distinguishing the players.
    pub fn symbol_utf(&self) -> (c: char)
        ensures
            c == symbol_utf_of(*self),
    {
        if matches!(self.player, Player::White) {
            match self.piece_type {
                PieceType::King => '\u{2654}',
                PieceType::Queen => '\u{2655}',
                PieceType::Rook => '\u{2656}',
                PieceType::Knight => '\u{2657}',
                PieceType::Bishop => '\u{2658}',
                PieceType::Pawn => '\u{2659}',
            }
        } else {
            match self.piece_type {
                PieceType::King => '\u{265A}',
                PieceType::Queen => '\u{265B}',
                PieceType::Rook => '\u{265C}',
                PieceType::Knight => '\u{265D}',
                PieceType::Bishop => '\u{265E}',
                PieceType::Pawn => '\u{265F}',
            }
        }
    }

    pub fn get_piece_type(&self) -> (t: &PieceType)
        ensures
            *t == self.piece_type,
    {
        &self.piece_type
    }

    pub fn get_player(&self) -> (p: &Player)
        ensures
            *p == self.player,
    {
        &self.player
    }
}

} // verus!
