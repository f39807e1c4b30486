use crate::board_state::Piece;

use vstd::prelude::*;

verus! {

/// A move proposal: where a piece starts, where it ends, and, for a pawn
/// reaching the far rank, the piece it promotes to. A `StoredMove` carries
/// no validation of its own; validity is established by move generation
/// before the move is applied.
#[derive(Debug, Clone, Copy, PartialEq, Eq)]
pub struct StoredMove {
    pub start_pos: (usize, usize),
    pub end_pos: (usize, usize),
    pub promotion: Option<Piece>,
}

} // verus!
