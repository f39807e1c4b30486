//! Core of a dark-chess game: board representation and geometric move
//! generation.
//!
//! `board_state` holds the value types (players, pieces, tiles) and the 8x8
//! board with its turn and fifty-move metadata. `move_generation` computes,
//! for an occupied square, the ordered sequence of geometrically legal
//! destination moves, handling obstruction, capture and board-edge
//! arithmetic. Self-check legality is deliberately out of scope: in this
//! variant a player may leave their own king attacked.

pub mod board_state;
pub mod move_generation;

use vstd::prelude::*;

verus! {

/// The ways a board query or a move-generation request can be rejected.
///
/// Blocked rays and off-board steps are not faults: they are silently left
/// out of a generated move sequence. A fault marks a call that a correct
/// caller never makes.
#[derive(Debug, Clone, Copy, PartialEq, Eq, Structural)]
pub enum Fault {
    /// A coordinate outside the 8x8 board was given where a board square
    /// was expected.
    InvalidCoordinate,
    /// Move generation was requested for a piece type other than the one
    /// actually occupying the tile.
    WrongPieceType,
    /// Move generation was requested for a tile with no piece on it.
    EmptyTileDispatch,
}

} // verus!
