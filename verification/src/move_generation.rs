use crate::board_state::in_bounds;
use crate::board_state::BoardState;
use crate::board_state::PieceType;
use crate::board_state::StoredMove;
use crate::board_state::Tile;
use crate::Fault;
use vstd::prelude::*;

verus! {

/// One step of a coordinate offset: `right` is added to a square's first
/// axis, `up` to its second. Stepping pieces take one such step per table
/// entry; sliding pieces repeat a step along a ray.
#[derive(Debug, Clone, Copy, PartialEq, Eq, Structural)]
pub struct Direction {
    pub up: i32,
    pub right: i32,
}

/// The square reached from `tile` after `k` steps of `dir`, in unbounded
/// signed arithmetic: no clamping, no wraparound.
pub open spec fn ray_target(tile: Tile, dir: Direction, k: int) -> (int, int) {
    (tile.pos.0 as int + k * (dir.right as int), tile.pos.1 as int + k * (dir.up as int))
}

/// The move that takes the piece on `tile` to the square `k` steps of
/// `dir` away. Meaningful when that square is on the board.
pub open spec fn ray_move(tile: Tile, dir: Direction, k: int) -> StoredMove {
    StoredMove {
        start_pos: tile.pos,
        end_pos: (ray_target(tile, dir, k).0 as usize, ray_target(tile, dir, k).1 as usize),
        promotion: Option::None,
    }
}

/// Whether a single step of `dir` from `tile` is a legal stepping-piece
/// destination on `board`: the target square is on the board and is not
/// occupied by a piece of the moving player.
pub open spec fn step_ok(board: BoardState, tile: Tile, dir: Direction) -> bool {
    let t = ray_target(tile, dir, 1);
    &&& in_bounds(t.0, t.1)
    &&& (match board.piece_at(t.0, t.1) {
        Option::Some(p) => p.player != tile.piece.unwrap().player,
        Option::None => true,
    })
}

/// The destinations of the ray of `dir` out of `tile`, from step `k`
/// onward: every empty square passed is a destination; the first occupied
/// square ends the ray, included as a capture when it holds an opposing
/// piece and excluded when it holds an own piece. A ray is over after at
/// most 8 steps: any single nonzero offset repeated 9 times from a board
/// square has left the board.
pub open spec fn ray_from(board: BoardState, tile: Tile, dir: Direction, k: int) -> Seq<
    StoredMove,
>
    decreases 9 - k,
{
    if k >= 9 {
        Seq::empty()
    } else {
        let t = ray_target(tile, dir, k);
        if !in_bounds(t.0, t.1) {
            Seq::empty()
        } else {
            match board.piece_at(t.0, t.1) {
                Option::None => seq![ray_move(tile, dir, k)] + ray_from(board, tile, dir, k + 1),
                Option::Some(p) => if p.player != tile.piece.unwrap().player {
                    seq![ray_move(tile, dir, k)]
                } else {
                    Seq::empty()
                },
            }
        }
    }
}

/// The full ray of `dir` out of `tile`: its destinations from the first
/// step on, nearest first.
pub open spec fn ray_moves(board: BoardState, tile: Tile, dir: Direction) -> Seq<StoredMove> {
    ray_from(board, tile, dir, 1)
}

/// The destinations of a stepping piece on `tile` over the offset table
/// `dirs`, in table order: one candidate square per offset, kept when
/// `step_ok` accepts it.
pub open spec fn step_moves(board: BoardState, tile: Tile, dirs: Seq<Direction>) -> Seq<
    StoredMove,
>
    decreases dirs.len(),
{
    if dirs.len() == 0 {
        Seq::empty()
    } else {
        step_moves(board, tile, dirs.drop_last()) + (if step_ok(board, tile, dirs.last()) {
            seq![ray_move(tile, dirs.last(), 1)]
        } else {
            Seq::empty()
        })
    }
}

/// The destinations of a sliding piece on `tile` over the ray table
/// `dirs`: the rays' destinations concatenated in table order.
pub open spec fn sliding_moves(board: BoardState, tile: Tile, dirs: Seq<Direction>) -> Seq<
    StoredMove,
>
    decreases dirs.len(),
{
    if dirs.len() == 0 {
        Seq::empty()
    } else {
        sliding_moves(board, tile, dirs.drop_last()) + ray_moves(board, tile, dirs.last())
    }
}

/// The eight unit offsets around a square, clockwise from straight up:
/// the king's step table and the queen's ray table.
pub open spec fn spec_king_queen_dirs() -> Seq<Direction> {
    seq![
        Direction { up: 1, right: 0 },
        Direction { up: 1, right: 1 },
        Direction { up: 0, right: 1 },
        Direction { up: -1i32, right: 1 },
        Direction { up: -1i32, right: 0 },
        Direction { up: -1i32, right: -1i32 },
        Direction { up: 0, right: -1i32 },
        Direction { up: 1, right: -1i32 },
    ]
}

/// The four diagonal unit offsets: the bishop's ray table.
pub open spec fn spec_bishop_dirs() -> Seq<Direction> {
    seq![
        Direction { up: 1, right: 1 },
        Direction { up: -1i32, right: 1 },
        Direction { up: -1i32, right: -1i32 },
        Direction { up: 1, right: -1i32 },
    ]
}

/// The four orthogonal unit offsets: the rook's ray table.
pub open spec fn spec_rook_dirs() -> Seq<Direction> {
    seq![
        Direction { up: 1, right: 0 },
        Direction { up: 0, right: 1 },
        Direction { up: -1i32, right: 0 },
        Direction { up: 0, right: -1i32 },
    ]
}

/// The eight L-shaped knight offsets, clockwise.
pub open spec fn spec_knight_dirs() -> Seq<Direction> {
    seq![
        Direction { up: 2, right: 1 },
        Direction { up: 1, right: 2 },
        Direction { up: -1i32, right: 2 },
        Direction { up: -2i32, right: 1 },
        Direction { up: -2i32, right: -1i32 },
        Direction { up: -1i32, right: -2i32 },
        Direction { up: 1, right: -2i32 },
        Direction { up: 2, right: -1i32 },
    ]
}

/// The king's and queen's direction table as a vector, in the canonical
/// order that generated moves follow.
pub fn king_queen_dirs() -> (v: Vec<Direction>)
    ensures
        v@ == spec_king_queen_dirs(),
{
    let mut v: Vec<Direction> = Vec::new();
    v.push(Direction { up: 1, right: 0 });
    v.push(Direction { up: 1, right: 1 });
    v.push(Direction { up: 0, right: 1 });
    v.push(Direction { up: -1, right: 1 });
    v.push(Direction { up: -1, right: 0 });
    v.push(Direction { up: -1, right: -1 });
    v.push(Direction { up: 0, right: -1 });
    v.push(Direction { up: 1, right: -1 });
    proof {
        assert(v@ =~= spec_king_queen_dirs());
    }
    v
}

/// The bishop's direction table as a vector, in canonical order.
pub fn bishop_dirs() -> (v: Vec<Direction>)
    ensures
        v@ == spec_bishop_dirs(),
{
    let mut v: Vec<Direction> = Vec::new();
    v.push(Direction { up: 1, right: 1 });
    v.push(Direction { up: -1, right: 1 });
    v.push(Direction { up: -1, right: -1 });
    v.push(Direction { up: 1, right: -1 });
    proof {
        assert(v@ =~= spec_bishop_dirs());
    }
    v
}

/// The rook's direction table as a vector, in canonical order.
pub fn rook_dirs() -> (v: Vec<Direction>)
    ensures
        v@ == spec_rook_dirs(),
{
    let mut v: Vec<Direction> = Vec::new();
    v.push(Direction { up: 1, right: 0 });
    v.push(Direction { up: 0, right: 1 });
    v.push(Direction { up: -1, right: 0 });
    v.push(Direction { up: 0, right: -1 });
    proof {
        assert(v@ =~= spec_rook_dirs());
    }
    v
}

/// The knight's direction table as a vector, in canonical order.
pub fn knight_dirs() -> (v: Vec<Direction>)
    ensures
        v@ == spec_knight_dirs(),
{
    let mut v: Vec<Direction> = Vec::new();
    v.push(Direction { up: 2, right: 1 });
    v.push(Direction { up: 1, right: 2 });
    v.push(Direction { up: -1, right: 2 });
    v.push(Direction { up: -2, right: 1 });
    v.push(Direction { up: -2, right: -1 });
    v.push(Direction { up: -1, right: -2 });
    v.push(Direction { up: 1, right: -2 });
    v.push(Direction { up: 2, right: -1 });
    proof {
        assert(v@ =~= spec_knight_dirs());
    }
    v
}

/// The stateless move generator: given a board and an occupied tile, its
/// functions compute the ordered sequence of geometrically legal
/// destination moves for the piece type named in the call. It never
/// mutates the board and holds no state of its own.
pub struct MoveGeneration {}

impl MoveGeneration {
    /// Whether one step of `dir` from `tile` stays on the board: true
    /// exactly when both target coordinates lie in [0, 7], computed in
    /// signed arithmetic so that a step off the low edge cannot wrap.
    pub fn within_bounds(dir: &Direction, tile: &Tile) -> (r: bool)
        requires
            tile.on_board(),
        ensures
            r == in_bounds(ray_target(*tile, *dir, 1).0, ray_target(*tile, *dir, 1).1),
    {
        let (x, y) = *tile.get_pos();
        let tx: i64 = x as i64 + dir.right as i64;
        let ty: i64 = y as i64 + dir.up as i64;
        0 <= tx && tx < 8 && 0 <= ty && ty < 8
    }

    /// The square one step of `dir` away from `tile`, narrowed to board
    /// coordinates; the caller must have checked the step stays on the
    /// board.
    pub fn add_dir(dir: &Direction, tile: &Tile) -> (p: (usize, usize))
        requires
            tile.on_board(),
            in_bounds(ray_target(*tile, *dir, 1).0, ray_target(*tile, *dir, 1).1),
        ensures
            p.0 as int == ray_target(*tile, *dir, 1).0,
            p.1 as int == ray_target(*tile, *dir, 1).1,
    {
        let (x, y) = *tile.get_pos();
        let tx: i64 = x as i64 + dir.right as i64;
        let ty: i64 = y as i64 + dir.up as i64;
        (tx as usize, ty as usize)
    }

    /// Whether one step of `dir` from `tile` is a legal stepping
    /// destination: on the board, and empty or held by an opposing piece.
    fn valid_dir(dir: &Direction, tile: &Tile, board_state: &BoardState) -> (r: bool)
        requires
            board_state.wf(),
            tile.on_board(),
            tile.piece is Some,
        ensures
            r == step_ok(*board_state, *tile, *dir),
    {
        if !MoveGeneration::within_bounds(dir, tile) {
            return false;
        }
        let (x, y) = MoveGeneration::add_dir(dir, tile);
        let target_tile = board_state.tile_at(x, y);
        let mover = tile.piece.unwrap();
        match target_tile.piece {
            Some(piece) => piece.player != mover.player,
            None => true,
        }
    }

    /// The move one step of `dir` away from `tile`, if that step is a
    /// legal stepping destination; `None` otherwise.
    fn check_dir(dir: &Direction, tile: &Tile, board_state: &BoardState) -> (r: Option<
        StoredMove,
    >)
        requires
            board_state.wf(),
            tile.on_board(),
            tile.piece is Some,
        ensures
            r == (if step_ok(*board_state, *tile, *dir) {
                Option::Some(ray_move(*tile, *dir, 1))
            } else {
                Option::<StoredMove>::None
            }),
    {
        if MoveGeneration::valid_dir(dir, tile, board_state) {
            let (x, y) = MoveGeneration::add_dir(dir, tile);
            Some(StoredMove { start_pos: *tile.get_pos(), end_pos: (x, y), promotion: None })
        } else {
            None
        }
    }

    /// Walks the ray of `dir` out of `tile` one square at a time and
    /// collects its destinations: empty squares are included and the walk
    /// goes on; the first occupied square ends the walk, included as a
    /// capture if it holds an opposing piece.
    fn continue_check_dir(dir: &Direction, tile: &Tile, board_state: &BoardState) -> (moves: Vec<
        StoredMove,
    >)
        requires
            board_state.wf(),
            tile.on_board(),
            tile.piece is Some,
        ensures
            moves@ == ray_moves(*board_state, *tile, *dir),
    {
        let mover = tile.piece.unwrap();
        let (px, py) = *tile.get_pos();
        let mut moves: Vec<StoredMove> = Vec::new();
        let mut k: usize = 1;
        let mut tx: i64 = px as i64 + dir.right as i64;
        let mut ty: i64 = py as i64 + dir.up as i64;
        while k <= 8
            invariant_except_break
                1 <= k <= 9,
                board_state.wf(),
                tile.on_board(),
                tile.piece is Some,
                mover == tile.piece.unwrap(),
                (px, py) == tile.pos,
                tx as int == ray_target(*tile, *dir, k as int).0,
                ty as int == ray_target(*tile, *dir, k as int).1,
                ray_moves(*board_state, *tile, *dir) == moves@ + ray_from(
                    *board_state,
                    *tile,
                    *dir,
                    k as int,
                ),
            ensures
                moves@ == ray_moves(*board_state, *tile, *dir),
            decreases 9 - k,
        {
            if !(0 <= tx && tx < 8 && 0 <= ty && ty < 8) {
                proof {
                    assert(ray_from(*board_state, *tile, *dir, k as int)
                        =~= Seq::<StoredMove>::empty());
                    assert(moves@ + Seq::<StoredMove>::empty() =~= moves@);
                }
                break;
            }
            let target_tile = board_state.tile_at(tx as usize, ty as usize);
            let m = StoredMove {
                start_pos: (px, py),
                end_pos: (tx as usize, ty as usize),
                promotion: None,
            };
            proof {
                assert(m == ray_move(*tile, *dir, k as int));
            }
            match target_tile.piece {
                None => {
                    moves.push(m);
                    proof {
                        assert((k + 1) * (dir.right as int) == k * (dir.right as int) + (
                        dir.right as int)) by (nonlinear_arith);
                        assert((k + 1) * (dir.up as int) == k * (dir.up as int) + (
                        dir.up as int)) by (nonlinear_arith);
                        assert(moves@ + ray_from(*board_state, *tile, *dir, k as int + 1) =~= (
                        moves@.drop_last()) + (seq![m] + ray_from(
                            *board_state,
                            *tile,
                            *dir,
                            k as int + 1,
                        )));
                    }
                    tx = tx + dir.right as i64;
                    ty = ty + dir.up as i64;
                    k += 1;
                },
                Some(p) => {
                    if p.player != mover.player {
                        moves.push(m);
                        proof {
                            assert(ray_from(*board_state, *tile, *dir, k as int) =~= seq![m]);
                            assert(moves@ =~= moves@.drop_last() + seq![m]);
                        }
                    } else {
                        proof {
                            assert(ray_from(*board_state, *tile, *dir, k as int)
                                =~= Seq::<StoredMove>::empty());
                            assert(moves@ + Seq::<StoredMove>::empty() =~= moves@);
                        }
                    }
                    break;
                },
            }
        }
        moves
    }

    /// The king's moves from `tile`: one candidate square per entry of the
    /// king's table, in table order, kept when on the board and not held
    /// by an own piece. Faults if the tile is empty or holds a piece of
    /// another type.
    pub fn gen_moves_king(tile: &Tile, board_state: &BoardState) -> (r: Result<
        Vec<StoredMove>,
        Fault,
    >)
        requires
            board_state.wf(),
            tile.on_board(),
        ensures
            (match tile.piece {
                Option::None => r == Err::<Vec<StoredMove>, Fault>(Fault::EmptyTileDispatch),
                Option::Some(p) => if p.piece_type != PieceType::King {
                    r == Err::<Vec<StoredMove>, Fault>(Fault::WrongPieceType)
                } else {
                    r is Ok && r->Ok_0@ == step_moves(*board_state, *tile, spec_king_queen_dirs())
                },
            }),
    {
        let piece = match tile.piece {
            Some(p) => p,
            None => {
                return Err(Fault::EmptyTileDispatch);
            },
        };
        if piece.piece_type != PieceType::King {
            return Err(Fault::WrongPieceType);
        }
        let dirs = king_queen_dirs();
        Ok(MoveGeneration::step_moves_over(&dirs, tile, board_state))
    }

    /// The knight's moves from `tile`: one candidate square per entry of
    /// the knight's table, in table order, kept when on the board and not
    /// held by an own piece. Faults if the tile is empty or holds a piece
    /// of another type.
    pub fn gen_moves_knight(tile: &Tile, board_state: &BoardState) -> (r: Result<
        Vec<StoredMove>,
        Fault,
    >)
        requires
            board_state.wf(),
            tile.on_board(),
        ensures
            (match tile.piece {
                Option::None => r == Err::<Vec<StoredMove>, Fault>(Fault::EmptyTileDispatch),
                Option::Some(p) => if p.piece_type != PieceType::Knight {
                    r == Err::<Vec<StoredMove>, Fault>(Fault::WrongPieceType)
                } else {
                    r is Ok && r->Ok_0@ == step_moves(*board_state, *tile, spec_knight_dirs())
                },
            }),
    {
        let piece = match tile.piece {
            Some(p) => p,
            None => {
                return Err(Fault::EmptyTileDispatch);
            },
        };
        if piece.piece_type != PieceType::Knight {
            return Err(Fault::WrongPieceType);
        }
        let dirs = knight_dirs();
        Ok(MoveGeneration::step_moves_over(&dirs, tile, board_state))
    }

    /// The queen's moves from `tile`: the rays of the queen's table walked
    /// in table order. Faults if the tile is empty or holds a piece of
    /// another type.
    pub fn gen_moves_queen(tile: &Tile, board_state: &BoardState) -> (r: Result<
        Vec<StoredMove>,
        Fault,
    >)
        requires
            board_state.wf(),
            tile.on_board(),
        ensures
            (match tile.piece {
                Option::None => r == Err::<Vec<StoredMove>, Fault>(Fault::EmptyTileDispatch),
                Option::Some(p) => if p.piece_type != PieceType::Queen {
                    r == Err::<Vec<StoredMove>, Fault>(Fault::WrongPieceType)
                } else {
                    r is Ok && r->Ok_0@ == sliding_moves(
                        *board_state,
                        *tile,
                        spec_king_queen_dirs(),
                    )
                },
            }),
    {
        let piece = match tile.piece {
            Some(p) => p,
            None => {
                return Err(Fault::EmptyTileDispatch);
            },
        };
        if piece.piece_type != PieceType::Queen {
            return Err(Fault::WrongPieceType);
        }
        let dirs = king_queen_dirs();
        Ok(MoveGeneration::sliding_moves_over(&dirs, tile, board_state))
    }

    /// The rook's moves from `tile`: the four orthogonal rays walked in
    /// table order. Faults if the tile is empty or holds a piece of
    /// another type.
    pub fn gen_moves_rook(tile: &Tile, board_state: &BoardState) -> (r: Result<
        Vec<StoredMove>,
        Fault,
    >)
        requires
            board_state.wf(),
            tile.on_board(),
        ensures
            (match tile.piece {
                Option::None => r == Err::<Vec<StoredMove>, Fault>(Fault::EmptyTileDispatch),
                Option::Some(p) => if p.piece_type != PieceType::Rook {
                    r == Err::<Vec<StoredMove>, Fault>(Fault::WrongPieceType)
                } else {
                    r is Ok && r->Ok_0@ == sliding_moves(*board_state, *tile, spec_rook_dirs())
                },
            }),
    {
        let piece = match tile.piece {
            Some(p) => p,
            None => {
                return Err(Fault::EmptyTileDispatch);
            },
        };
        if piece.piece_type != PieceType::Rook {
            return Err(Fault::WrongPieceType);
        }
        let dirs = rook_dirs();
        Ok(MoveGeneration::sliding_moves_over(&dirs, tile, board_state))
    }

    /// The bishop's moves from `tile`: the four diagonal rays walked in
    /// table order. Faults if the tile is empty or holds a piece of
    /// another type.
    pub fn gen_moves_bishop(tile: &Tile, board_state: &BoardState) -> (r: Result<
        Vec<StoredMove>,
        Fault,
    >)
        requires
            board_state.wf(),
            tile.on_board(),
        ensures
            (match tile.piece {
                Option::None => r == Err::<Vec<StoredMove>, Fault>(Fault::EmptyTileDispatch),
                Option::Some(p) => if p.piece_type != PieceType::Bishop {
                    r == Err::<Vec<StoredMove>, Fault>(Fault::WrongPieceType)
                } else {
                    r is Ok && r->Ok_0@ == sliding_moves(*board_state, *tile, spec_bishop_dirs())
                },
            }),
    {
        let piece = match tile.piece {
            Some(p) => p,
            None => {
                return Err(Fault::EmptyTileDispatch);
            },
        };
        if piece.piece_type != PieceType::Bishop {
            return Err(Fault::WrongPieceType);
        }
        let dirs = bishop_dirs();
        Ok(MoveGeneration::sliding_moves_over(&dirs, tile, board_state))
    }

    /// One stepping pass over an offset table: the kept candidates, in
    /// table order.
    fn step_moves_over(dirs: &Vec<Direction>, tile: &Tile, board_state: &BoardState) -> (moves:
        Vec<StoredMove>)
        requires
            board_state.wf(),
            tile.on_board(),
            tile.piece is Some,
        ensures
            moves@ == step_moves(*board_state, *tile, dirs@),
    {
        let mut moves: Vec<StoredMove> = Vec::new();
        let mut i: usize = 0;
        while i < dirs.len()
            invariant
                i <= dirs@.len(),
                board_state.wf(),
                tile.on_board(),
                tile.piece is Some,
                moves@ == step_moves(*board_state, *tile, dirs@.take(i as int)),
            decreases dirs@.len() - i,
        {
            let dir = dirs[i];
            match MoveGeneration::check_dir(&dir, tile, board_state) {
                Some(m) => moves.push(m),
                None => {},
            }
            proof {
                assert(dirs@.take(i as int + 1).drop_last() =~= dirs@.take(i as int));
                assert(dirs@.take(i as int + 1).last() == dirs@[i as int]);
                if step_ok(*board_state, *tile, dirs@[i as int]) {
                    assert(moves@ =~= moves@.drop_last() + seq![
                        ray_move(*tile, dirs@[i as int], 1),
                    ]);
                } else {
                    assert(moves@ + Seq::<StoredMove>::empty() =~= moves@);
                }
            }
            i += 1;
        }
        proof {
            assert(dirs@.take(dirs@.len() as int) =~= dirs@);
        }
        moves
    }

    /// One sliding pass over a ray table: the rays' destinations
    /// concatenated in table order.
    fn sliding_moves_over(dirs: &Vec<Direction>, tile: &Tile, board_state: &BoardState) -> (moves:
        Vec<StoredMove>)
        requires
            board_state.wf(),
            tile.on_board(),
            tile.piece is Some,
        ensures
            moves@ == sliding_moves(*board_state, *tile, dirs@),
    {
        let mut moves: Vec<StoredMove> = Vec::new();
        let mut i: usize = 0;
        while i < dirs.len()
            invariant
                i <= dirs@.len(),
                board_state.wf(),
                tile.on_board(),
                tile.piece is Some,
                moves@ == sliding_moves(*board_state, *tile, dirs@.take(i as int)),
            decreases dirs@.len() - i,
        {
            let dir = dirs[i];
            let mut continued = MoveGeneration::continue_check_dir(&dir, tile, board_state);
            moves.append(&mut continued);
            proof {
                assert(dirs@.take(i as int + 1).drop_last() =~= dirs@.take(i as int));
                assert(dirs@.take(i as int + 1).last() == dirs@[i as int]);
            }
            i += 1;
        }
        proof {
            assert(dirs@.take(dirs@.len() as int) =~= dirs@);
        }
        moves
    }
}

} // verus!
