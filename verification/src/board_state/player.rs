use vstd::prelude::*;

verus! {

/// One of the two sides of a game. Every piece belongs to a player, and the
/// board tracks whose turn it is.
#[derive(Debug, Clone, Copy, PartialEq, Eq, Structural)]
pub enum Player {
    White,
    Black,
}

/// The opponent of `p`: the player whose turn comes next.
pub open spec fn other_player(p: Player) -> Player {
    match p {
        Player::White => Player::Black,
        Player::Black => Player::White,
    }
}

} // verus!
