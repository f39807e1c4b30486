pub mod piece;
pub mod player;
pub mod stored_move;
pub mod tile;

pub use crate::board_state::piece::Piece;
pub use crate::board_state::piece::PieceType;
pub use crate::board_state::player::Player;
pub use crate::board_state::stored_move::StoredMove;
pub use crate::board_state::tile::Tile;

use crate::board_state::player::other_player;
use crate::board_state::tile::tile_symbol;
use crate::board_state::tile::tile_symbol_utf;
use crate::Fault;
use vstd::prelude::*;

verus! {

/// Whether `(x, y)` names a square of the 8x8 board: both axes in [0, 7].
pub open spec fn in_bounds(x: int, y: int) -> bool {
    0 <= x < 8 && 0 <= y < 8
}

/// The piece type standing on column `y` of a player's back rank in the
/// standard starting layout.
pub open spec fn back_rank_type(y: int) -> PieceType {
    if y == 0 || y == 7 {
        PieceType::Rook
    } else if y == 1 || y == 6 {
        PieceType::Knight
    } else if y == 2 || y == 5 {
        PieceType::Bishop
    } else if y == 3 {
        PieceType::Queen
    } else {
        PieceType::King
    }
}

/// The occupant of square `(x, y)` in the standard starting layout: Black's
/// back rank on row 0 and pawns on row 1, mirrored for White on rows 7 and
/// 6, every other square empty.
pub open spec fn start_piece_at(x: int, y: int) -> Option<Piece> {
    if x == 0 {
        Option::Some(Piece { piece_type: back_rank_type(y), player: Player::Black })
    } else if x == 1 {
        Option::Some(Piece { piece_type: PieceType::Pawn, player: Player::Black })
    } else if x == 6 {
        Option::Some(Piece { piece_type: PieceType::Pawn, player: Player::White })
    } else if x == 7 {
        Option::Some(Piece { piece_type: back_rank_type(y), player: Player::White })
    } else {
        Option::None
    }
}

/// The characters of row `x`'s rendering, over the first `y` columns:
/// one symbol per tile, single spaces between them.
pub open spec fn row_chars(b: BoardState, x: int, y: int) -> Seq<char>
    decreases y,
{
    if y <= 0 {
        Seq::empty()
    } else if y == 1 {
        seq![tile_symbol(b.spec_tile_at(x, 0))]
    } else {
        row_chars(b, x, y - 1) + seq![' ', tile_symbol(b.spec_tile_at(x, y - 1))]
    }
}

/// The characters of the board's rendering over the first `x` rows: one
/// line per row, joined by single newlines, with no trailing newline.
pub open spec fn board_chars(b: BoardState, x: int) -> Seq<char>
    decreases x,
{
    if x <= 0 {
        Seq::empty()
    } else if x == 1 {
        row_chars(b, 0, 8)
    } else {
        board_chars(b, x - 1) + seq!['\n'] + row_chars(b, x - 1, 8)
    }
}

/// As `row_chars`, with the player-distinguishing glyphs.
pub open spec fn row_chars_utf(b: BoardState, x: int, y: int) -> Seq<char>
    decreases y,
{
    if y <= 0 {
        Seq::empty()
    } else if y == 1 {
        seq![tile_symbol_utf(b.spec_tile_at(x, 0))]
    } else {
        row_chars_utf(b, x, y - 1) + seq![' ', tile_symbol_utf(b.spec_tile_at(x, y - 1))]
    }
}

/// As `board_chars`, with the player-distinguishing glyphs.
pub open spec fn board_chars_utf(b: BoardState, x: int) -> Seq<char>
    decreases x,
{
    if x <= 0 {
        Seq::empty()
    } else if x == 1 {
        row_chars_utf(b, 0, 8)
    } else {
        board_chars_utf(b, x - 1) + seq!['\n'] + row_chars_utf(b, x - 1, 8)
    }
}

/// The number of squares among columns [0, y) of row `x` that hold a
/// piece owned by `pl`.
pub open spec fn count_row(b: BoardState, x: int, y: int, pl: Player) -> int
    decreases y,
{
    if y <= 0 {
        0
    } else {
        count_row(b, x, y - 1, pl) + (match b.piece_at(x, y - 1) {
            Option::Some(p) => if p.player == pl {
                1int
            } else {
                0int
            },
            Option::None => 0int,
        })
    }
}

/// The number of squares among rows [0, x) that hold a piece owned by
/// `pl`.
pub open spec fn count_pieces(b: BoardState, x: int, pl: Player) -> int
    decreases x,
{
    if x <= 0 {
        0
    } else {
        count_pieces(b, x - 1, pl) + count_row(b, x - 1, 8, pl)
    }
}

/// A board in the standard starting layout holds exactly sixteen pieces
/// per side: each player's back rank and pawn row are full, and every
/// other square is empty.
pub proof fn lemma_start_layout_piece_counts(b: BoardState)
    requires
        forall|x: int, y: int|
            in_bounds(x, y) ==> #[trigger] b.piece_at(x, y) == start_piece_at(x, y),
    ensures
        count_pieces(b, 8, Player::White) == 16,
        count_pieces(b, 8, Player::Black) == 16,
{
    reveal_with_fuel(count_row, 9);
    reveal_with_fuel(count_pieces, 9);
    assert(count_row(b, 0, 8, Player::Black) == 8);
    assert(count_row(b, 1, 8, Player::Black) == 8);
    assert(count_row(b, 6, 8, Player::Black) == 0);
    assert(count_row(b, 7, 8, Player::Black) == 0);
    assert(count_row(b, 0, 8, Player::White) == 0);
    assert(count_row(b, 1, 8, Player::White) == 0);
    assert(count_row(b, 6, 8, Player::White) == 8);
    assert(count_row(b, 7, 8, Player::White) == 8);
    assert forall|x: int, pl: Player| 2 <= x < 6 implies count_row(b, x, 8, pl) == 0 by {
        assert(count_row(b, x, 8, pl) == 0);
    }
}

/// Relies on std's `String::push`, which appends exactly the given
/// character to the end of the string.
pub assume_specification[ String::push ](s: &mut String, ch: char)
    ensures
        final(s)@ == old(s)@.push(ch),
;

/// The full state of a game: an 8x8 grid of tiles, whose turn it is, and
/// the fifty-move-rule counter. Mutated only by `move_piece`; every query
/// reads a stable snapshot.
#[derive(Debug)]
pub struct BoardState {
    player_turn: Player,
    fifty_move_rule_count: usize,
    board: Vec<Vec<Tile>>,
}

impl BoardState {
    /// The player to move.
    pub closed spec fn turn(self) -> Player {
        self.player_turn
    }

    /// The fifty-move-rule counter.
    pub closed spec fn fifty_count(self) -> usize {
        self.fifty_move_rule_count
    }

    /// The tile stored at square `(x, y)`.
    pub closed spec fn spec_tile_at(self, x: int, y: int) -> Tile {
        self.board@[x]@[y]
    }

    /// The occupant of square `(x, y)`, if any.
    pub open spec fn piece_at(self, x: int, y: int) -> Option<Piece> {
        self.spec_tile_at(x, y).piece
    }

    /// The grid invariant: 8 rows of 8 tiles, and every tile's stored
    /// position equals its coordinates in the grid.
    pub closed spec fn wf(self) -> bool {
        &&& self.board@.len() == 8
        &&& forall|x: int| 0 <= x < 8 ==> (#[trigger] self.board@[x])@.len() == 8
        &&& forall|x: int, y: int|
            in_bounds(x, y) ==> (#[trigger] self.board@[x]@[y]).pos == (x as usize, y as usize)
    }

    /// A board in the standard starting layout, White to move, with the
    /// fifty-move counter at zero.
    pub fn new() -> (b: BoardState)
        ensures
            b.wf(),
            b.turn() == Player::White,
            b.fifty_count() == 0,
            forall|x: int, y: int|
                in_bounds(x, y) ==> #[trigger] b.piece_at(x, y) == start_piece_at(x, y),
    {
        BoardState {
            player_turn: Player::White,
            fifty_move_rule_count: 0,
            board: BoardState::place_pieces(),
        }
    }

    /// A board with no pieces at all, White to move, with the fifty-move
    /// counter at zero: the blank canvas for setting up an arbitrary
    /// position with `place_piece`.
    pub fn empty() -> (b: BoardState)
        ensures
            b.wf(),
            b.turn() == Player::White,
            b.fifty_count() == 0,
            forall|x: int, y: int| in_bounds(x, y) ==> #[trigger] b.piece_at(x, y) is None,
    {
        let mut board: Vec<Vec<Tile>> = Vec::new();
        let mut x: usize = 0;
        while x < 8
            invariant
                x <= 8,
                board@.len() == x as int,
                forall|i: int| 0 <= i < x as int ==> (#[trigger] board@[i])@.len() == 8,
                forall|i: int, j: int|
                    0 <= i < x as int && 0 <= j < 8 ==> #[trigger] board@[i]@[j] == (Tile {
                        piece: Option::<Piece>::None,
                        pos: (i as usize, j as usize),
                    }),
            decreases 8 - x,
        {
            let row = BoardState::init_consistent_row(x, None);
            board.push(row);
            x += 1;
        }
        BoardState { player_turn: Player::White, fifty_move_rule_count: 0, board }
    }

    /// Puts `piece` (or, with `None`, nothing) on square `pos`, leaving
    /// every other square, the turn and the counters unchanged.
    pub fn place_piece(&mut self, pos: (usize, usize), piece: Option<Piece>)
        requires
            old(self).wf(),
            in_bounds(pos.0 as int, pos.1 as int),
        ensures
            final(self).wf(),
            final(self).turn() == old(self).turn(),
            final(self).fifty_count() == old(self).fifty_count(),
            final(self).piece_at(pos.0 as int, pos.1 as int) == piece,
            forall|x: int, y: int|
                in_bounds(x, y) && !(x == pos.0 as int && y == pos.1 as int)
                    ==> #[trigger] final(self).piece_at(x, y) == old(self).piece_at(x, y),
    {
        let (x, y) = pos;
        self.board[x][y] = Tile::new(piece, (x, y));
    }

    pub fn get_pos_of_tile<'a>(&self, tile: &'a Tile) -> (p: &'a (usize, usize))
        ensures
            *p == tile.pos,
    {
        tile.get_pos()
    }

    /// The tile at `pos`, or `InvalidCoordinate` if either axis lies
    /// outside [0, 7]; out-of-range coordinates are never clamped or
    /// wrapped.
    pub fn get_tile_at_pos(&self, pos: (usize, usize)) -> (r: Result<Tile, Fault>)
        requires
            self.wf(),
        ensures
            in_bounds(pos.0 as int, pos.1 as int)
                ==> r == Ok::<Tile, Fault>(self.spec_tile_at(pos.0 as int, pos.1 as int)),
            !in_bounds(pos.0 as int, pos.1 as int)
                ==> r == Err::<Tile, Fault>(Fault::InvalidCoordinate),
    {
        let (x, y) = pos;
        if x < 8 && y < 8 {
            Ok(self.tile_at(x, y))
        } else {
            Err(Fault::InvalidCoordinate)
        }
    }

    /// The tile at `(x, y)`, for callers that have already established the
    /// coordinates are on the board.
    pub(crate) fn tile_at(&self, x: usize, y: usize) -> (t: Tile)
        requires
            self.wf(),
            x < 8,
            y < 8,
        ensures
            t == self.spec_tile_at(x as int, y as int),
    {
        self.board[x][y]
    }

    /// The player to move.
    pub fn get_player_turn(&self) -> (p: Player)
        ensures
            p == self.turn(),
    {
        self.player_turn
    }

    /// The board rendered as 8 lines of 8 space-separated ASCII piece
    /// letters, `'.'` for an empty square, rank-major.
    pub fn display_full_board(&self) -> (s: String)
        requires
            self.wf(),
        ensures
            s@ == board_chars(*self, 8),
    {
        let mut result = String::new();
        let mut x: usize = 0;
        while x < 8
            invariant
                self.wf(),
                x <= 8,
                result@ == board_chars(*self, x as int),
            decreases 8 - x,
        {
            if x > 0 {
                result.push('\n');
            }
            let ghost prefix = result@;
            let mut y: usize = 0;
            while y < 8
                invariant
                    self.wf(),
                    x < 8,
                    y <= 8,
                    result@ == prefix + row_chars(*self, x as int, y as int),
                decreases 8 - y,
            {
                if y > 0 {
                    result.push(' ');
                }
                let t = self.tile_at(x, y);
                result.push(t.symbol());
                proof {
                    assert(result@ =~= prefix + row_chars(*self, x as int, y as int + 1));
                }
                y += 1;
            }
            proof {
                assert(result@ =~= board_chars(*self, x as int + 1));
            }
            x += 1;
        }
        result
    }

    /// The board rendered as 8 lines of 8 space-separated chess glyphs,
    /// `'.'` for an empty square, rank-major.
    pub fn display_full_board_utf(&self) -> (s: String)
        requires
            self.wf(),
        ensures
            s@ == board_chars_utf(*self, 8),
    {
        let mut result = String::new();
        let mut x: usize = 0;
        while x < 8
            invariant
                self.wf(),
                x <= 8,
                result@ == board_chars_utf(*self, x as int),
            decreases 8 - x,
        {
            if x > 0 {
                result.push('\n');
            }
            let ghost prefix = result@;
            let mut y: usize = 0;
            while y < 8
                invariant
                    self.wf(),
                    x < 8,
                    y <= 8,
                    result@ == prefix + row_chars_utf(*self, x as int, y as int),
                decreases 8 - y,
            {
                if y > 0 {
                    result.push(' ');
                }
                let t = self.tile_at(x, y);
                result.push(t.symbol_utf());
                proof {
                    assert(result@ =~= prefix + row_chars_utf(*self, x as int, y as int + 1));
                }
                y += 1;
            }
            proof {
                assert(result@ =~= board_chars_utf(*self, x as int + 1));
            }
            x += 1;
        }
        result
    }

    /// Applies a pre-validated move: the moved piece (or, if a promotion
    /// piece is given, that piece) is placed on the destination square, the
    /// origin square is cleared, and the turn flips to the other player.
    /// No legality checking happens here; the caller must have validated
    /// the move, typically against the generated move sequence.
    pub fn move_piece(&mut self, planned_move: StoredMove)
        requires
            old(self).wf(),
            in_bounds(planned_move.start_pos.0 as int, planned_move.start_pos.1 as int),
            in_bounds(planned_move.end_pos.0 as int, planned_move.end_pos.1 as int),
            planned_move.start_pos != planned_move.end_pos,
            old(self).piece_at(planned_move.start_pos.0 as int, planned_move.start_pos.1 as int)
                is Some,
        ensures
            final(self).wf(),
            final(self).turn() == other_player(old(self).turn()),
            final(self).fifty_count() == old(self).fifty_count(),
            final(self).piece_at(planned_move.end_pos.0 as int, planned_move.end_pos.1 as int)
                == (match planned_move.promotion {
                Option::Some(p) => Option::Some(p),
                Option::None => old(self).piece_at(
                    planned_move.start_pos.0 as int,
                    planned_move.start_pos.1 as int,
                ),
            }),
            final(self).piece_at(planned_move.start_pos.0 as int, planned_move.start_pos.1 as int)
                is None,
            forall|x: int, y: int|
                in_bounds(x, y)
                    && !(x == planned_move.start_pos.0 as int && y == planned_move.start_pos.1
                    as int)
                    && !(x == planned_move.end_pos.0 as int && y == planned_move.end_pos.1 as int)
                    ==> #[trigger] final(self).piece_at(x, y) == old(self).piece_at(x, y),
    {
        let (start_x, start_y) = planned_move.start_pos;
        let (end_x, end_y) = planned_move.end_pos;
        let start_tile = self.tile_at(start_x, start_y);
        let placed: Option<Piece> = match planned_move.promotion {
            Some(piece) => Some(piece),
            None => start_tile.piece,
        };
        self.board[end_x][end_y] = Tile::new(placed, (end_x, end_y));
        self.board[start_x][start_y] = Tile::new(None, (start_x, start_y));
        self.player_turn = match self.player_turn {
            Player::White => Player::Black,
            Player::Black => Player::White,
        };
    }

    /// The full starting grid: Black's pieces on rows 0 and 1, White's on
    /// rows 6 and 7, rows 2 through 5 empty.
    fn place_pieces() -> (board: Vec<Vec<Tile>>)
        ensures
            board@.len() == 8,
            forall|x: int| 0 <= x < 8 ==> (#[trigger] board@[x])@.len() == 8,
            forall|x: int, y: int|
                in_bounds(x, y) ==> #[trigger] board@[x]@[y] == (Tile {
                    piece: start_piece_at(x, y),
                    pos: (x as usize, y as usize),
                }),
    {
        let row_8 = BoardState::back_rank(0, Player::Black);
        let row_7 = BoardState::init_consistent_row(
            1,
            Some(Piece::new(PieceType::Pawn, Player::Black)),
        );
        let row_6 = BoardState::init_consistent_row(2, None);
        let row_5 = BoardState::init_consistent_row(3, None);
        let row_4 = BoardState::init_consistent_row(4, None);
        let row_3 = BoardState::init_consistent_row(5, None);
        let row_2 = BoardState::init_consistent_row(
            6,
            Some(Piece::new(PieceType::Pawn, Player::White)),
        );
        let row_1 = BoardState::back_rank(7, Player::White);

        let ghost rows: Seq<Seq<Tile>> = seq![
            row_8@,
            row_7@,
            row_6@,
            row_5@,
            row_4@,
            row_3@,
            row_2@,
            row_1@,
        ];

        let mut board: Vec<Vec<Tile>> = Vec::new();
        board.push(row_8);
        board.push(row_7);
        board.push(row_6);
        board.push(row_5);
        board.push(row_4);
        board.push(row_3);
        board.push(row_2);
        board.push(row_1);

        proof {
            assert forall|x: int, y: int| in_bounds(x, y) implies #[trigger] board@[x]@[y]
                == (Tile { piece: start_piece_at(x, y), pos: (x as usize, y as usize) }) by {
                assert(board@[x]@ == rows[x]);
            }
        }
        board
    }

    /// One of the two back ranks of the starting layout, on row `row`,
    /// owned by `player`: rook, knight, bishop, queen, king, bishop,
    /// knight, rook.
    fn back_rank(row: usize, player: Player) -> (r: Vec<Tile>)
        requires
            row < 8,
        ensures
            r@.len() == 8,
            forall|y: int|
                0 <= y < 8 ==> #[trigger] r@[y] == (Tile {
                    piece: Option::Some(Piece { piece_type: back_rank_type(y), player }),
                    pos: (row, y as usize),
                }),
    {
        let mut r: Vec<Tile> = Vec::new();
        r.push(Tile::new(Some(Piece::new(PieceType::Rook, player)), (row, 0)));
        r.push(Tile::new(Some(Piece::new(PieceType::Knight, player)), (row, 1)));
        r.push(Tile::new(Some(Piece::new(PieceType::Bishop, player)), (row, 2)));
        r.push(Tile::new(Some(Piece::new(PieceType::Queen, player)), (row, 3)));
        r.push(Tile::new(Some(Piece::new(PieceType::King, player)), (row, 4)));
        r.push(Tile::new(Some(Piece::new(PieceType::Bishop, player)), (row, 5)));
        r.push(Tile::new(Some(Piece::new(PieceType::Knight, player)), (row, 6)));
        r.push(Tile::new(Some(Piece::new(PieceType::Rook, player)), (row, 7)));
        r
    }

    /// A row of 8 tiles on row `row`, each holding a copy of `piece`: a
    /// pawn rank of the starting layout, or an empty rank.
    fn init_consistent_row(row: usize, piece: Option<Piece>) -> (r: Vec<Tile>)
        requires
            row < 8,
        ensures
            r@.len() == 8,
            forall|y: int|
                0 <= y < 8 ==> #[trigger] r@[y] == (Tile { piece, pos: (row, y as usize) }),
    {
        let mut r: Vec<Tile> = Vec::new();
        let mut y: usize = 0;
        while y < 8
            invariant
                y <= 8,
                r@.len() == y as int,
                forall|j: int|
                    0 <= j < y as int ==> #[trigger] r@[j] == (Tile {
                        piece,
                        pos: (row, j as usize),
                    }),
            decreases 8 - y,
        {
            r.push(Tile::new(piece, (row, y)));
            y += 1;
        }
        r
    }
}

} // verus!
