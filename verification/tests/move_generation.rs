use dark_chess::board_state::BoardState;
use dark_chess::board_state::Piece;
use dark_chess::board_state::PieceType;
use dark_chess::board_state::Player;
use dark_chess::board_state::StoredMove;
use dark_chess::board_state::Tile;
use dark_chess::move_generation::bishop_dirs;
use dark_chess::move_generation::king_queen_dirs;
use dark_chess::move_generation::knight_dirs;
use dark_chess::move_generation::rook_dirs;
use dark_chess::move_generation::Direction;
use dark_chess::move_generation::MoveGeneration;
use dark_chess::Fault;

fn end_positions(moves: &[StoredMove]) -> Vec<(usize, usize)> {
    let mut ends = Vec::new();
    for m in moves.iter() {
        ends.push(m.end_pos);
    }
    ends
}

fn board_with(pieces: &[(Piece, (usize, usize))]) -> BoardState {
    let mut board = BoardState::empty();
    for (piece, pos) in pieces.iter() {
        board.place_piece(*pos, Some(*piece));
    }
    board
}

#[test]
fn within_bounds_x_too_large() {
    let dir = Direction { right: 1, up: 0 };
    let pos = (7, 4);
    let tile = Tile::new(None, pos);

    assert!(!MoveGeneration::within_bounds(&dir, &tile));
}

#[test]
fn within_bounds_y_too_large() {
    let dir = Direction { right: 0, up: 1 };
    let pos = (4, 7);
    let tile = Tile::new(None, pos);

    assert!(!MoveGeneration::within_bounds(&dir, &tile));
}

#[test]
fn within_bounds_x_too_small() {
    let dir = Direction { right: -1, up: 0 };
    let pos = (0, 4);
    let tile = Tile::new(None, pos);

    assert!(!MoveGeneration::within_bounds(&dir, &tile));
}

#[test]
fn within_bounds_y_too_small() {
    let dir = Direction { right: 0, up: -1 };
    let pos = (4, 0);
    let tile = Tile::new(None, pos);

    assert!(!MoveGeneration::within_bounds(&dir, &tile));
}

#[test]
fn within_bounds_x_y_big() {
    let dir = Direction { up: 1, right: 1 };
    let pos = (7, 7);
    let tile = Tile::new(None, pos);

    assert!(!MoveGeneration::within_bounds(&dir, &tile));
}

#[test]
fn within_bounds_x_y_small() {
    let dir = Direction { up: -1, right: -1 };
    let pos = (0, 0);
    let tile = Tile::new(None, pos);

    assert!(!MoveGeneration::within_bounds(&dir, &tile));
}

#[test]
fn within_bounds_x_y_big_small() {
    let dir = Direction { right: 1, up: -1 };
    let pos = (7, 0);
    let tile = Tile::new(None, pos);

    assert!(!MoveGeneration::within_bounds(&dir, &tile));
}

#[test]
fn within_bounds_x_y_small_big() {
    let dir = Direction { right: -1, up: 1 };
    let pos = (0, 7);
    let tile = Tile::new(None, pos);

    assert!(!MoveGeneration::within_bounds(&dir, &tile));
}

#[test]
fn within_bounds_x_close_big() {
    let dir = Direction { right: 1, up: 0 };
    let pos = (6, 4);
    let tile = Tile::new(None, pos);

    assert!(MoveGeneration::within_bounds(&dir, &tile));
}

#[test]
fn within_bounds_x_close_small() {
    let dir = Direction { up: 0, right: 0 };
    let pos = (0, 0);
    let tile = Tile::new(None, pos);

    assert!(MoveGeneration::within_bounds(&dir, &tile));
}

#[test]
fn within_bounds_y_close_big() {
    let dir = Direction { up: 0, right: 0 };
    let pos = (0, 7);
    let tile = Tile::new(None, pos);

    assert!(MoveGeneration::within_bounds(&dir, &tile));
}

#[test]
fn within_bounds_y_close_small() {
    let dir = Direction { right: 0, up: -1 };
    let pos = (0, 1);
    let tile = Tile::new(None, pos);

    assert!(MoveGeneration::within_bounds(&dir, &tile));
}

#[test]
fn within_bounds_x_y_middle() {
    let dir = Direction { up: 1, right: 1 };
    let pos = (4, 4);
    let tile = Tile::new(None, pos);

    assert!(MoveGeneration::within_bounds(&dir, &tile));
}

#[test]
fn bounds_check_exhaustive() {
    // For every board square and every table-declared direction, the
    // bounds check holds exactly when both target coordinates land in
    // [0, 7].
    let tables = [king_queen_dirs(), rook_dirs(), bishop_dirs(), knight_dirs()];
    for table in tables.iter() {
        for x in 0..8usize {
            for y in 0..8usize {
                let tile = Tile::new(None, (x, y));
                for dir in table.iter() {
                    let tx = x as i64 + dir.right as i64;
                    let ty = y as i64 + dir.up as i64;
                    let expected = 0 <= tx && tx < 8 && 0 <= ty && ty < 8;
                    assert_eq!(MoveGeneration::within_bounds(dir, &tile), expected);
                }
            }
        }
    }
}

#[test]
fn knight_corner_two() {
    let knight = Piece::new(PieceType::Knight, Player::White);
    let board = board_with(&[(knight, (0, 0))]);
    let tile = board.get_tile_at_pos((0, 0)).unwrap();
    let moves = MoveGeneration::gen_moves_knight(&tile, &board).unwrap();
    assert_eq!(end_positions(&moves), vec![(1, 2), (2, 1)]);
}

#[test]
fn knight_near_corner_four() {
    let knight = Piece::new(PieceType::Knight, Player::White);
    let board = board_with(&[(knight, (1, 1))]);
    let tile = board.get_tile_at_pos((1, 1)).unwrap();
    let moves = MoveGeneration::gen_moves_knight(&tile, &board).unwrap();
    assert_eq!(end_positions(&moves), vec![(2, 3), (3, 2), (3, 0), (0, 3)]);
}

#[test]
fn knight_center_eight() {
    let knight = Piece::new(PieceType::Knight, Player::Black);
    let board = board_with(&[(knight, (4, 4))]);
    let tile = board.get_tile_at_pos((4, 4)).unwrap();
    let moves = MoveGeneration::gen_moves_knight(&tile, &board).unwrap();
    assert_eq!(
        end_positions(&moves),
        vec![(5, 6), (6, 5), (6, 3), (5, 2), (3, 2), (2, 3), (2, 5), (3, 6)]
    );
}

#[test]
fn knight_own_piece_excludes_one_square() {
    let knight = Piece::new(PieceType::Knight, Player::White);
    let own_pawn = Piece::new(PieceType::Pawn, Player::White);
    let board = board_with(&[(knight, (0, 0)), (own_pawn, (1, 2))]);
    let tile = board.get_tile_at_pos((0, 0)).unwrap();
    let moves = MoveGeneration::gen_moves_knight(&tile, &board).unwrap();
    assert_eq!(end_positions(&moves), vec![(2, 1)]);
}

#[test]
fn knight_captures_opponent() {
    let knight = Piece::new(PieceType::Knight, Player::White);
    let enemy_pawn = Piece::new(PieceType::Pawn, Player::Black);
    let board = board_with(&[(knight, (0, 0)), (enemy_pawn, (1, 2))]);
    let tile = board.get_tile_at_pos((0, 0)).unwrap();
    let moves = MoveGeneration::gen_moves_knight(&tile, &board).unwrap();
    assert_eq!(end_positions(&moves), vec![(1, 2), (2, 1)]);
}

#[test]
fn king_center_eight() {
    let king = Piece::new(PieceType::King, Player::White);
    let board = board_with(&[(king, (4, 4))]);
    let tile = board.get_tile_at_pos((4, 4)).unwrap();
    let moves = MoveGeneration::gen_moves_king(&tile, &board).unwrap();
    assert_eq!(
        end_positions(&moves),
        vec![(4, 5), (5, 5), (5, 4), (5, 3), (4, 3), (3, 3), (3, 4), (3, 5)]
    );
}

#[test]
fn king_boxed_in_at_start() {
    let board = BoardState::new();
    let tile = board.get_tile_at_pos((7, 4)).unwrap();
    let moves = MoveGeneration::gen_moves_king(&tile, &board).unwrap();
    assert!(moves.is_empty());
}

#[test]
fn rook_open_board_fourteen() {
    let rook = Piece::new(PieceType::Rook, Player::White);
    let board = board_with(&[(rook, (3, 3))]);
    let tile = board.get_tile_at_pos((3, 3)).unwrap();
    let moves = MoveGeneration::gen_moves_rook(&tile, &board).unwrap();
    assert_eq!(moves.len(), 14);
    assert_eq!(
        end_positions(&moves),
        vec![
            (3, 4),
            (3, 5),
            (3, 6),
            (3, 7),
            (4, 3),
            (5, 3),
            (6, 3),
            (7, 3),
            (3, 2),
            (3, 1),
            (3, 0),
            (2, 3),
            (1, 3),
            (0, 3),
        ]
    );
    for m in moves.iter() {
        assert_eq!(m.start_pos, (3, 3));
        assert_eq!(m.promotion, None);
    }
}

#[test]
fn rook_ray_stops_before_own_piece() {
    let rook = Piece::new(PieceType::Rook, Player::White);
    let own_pawn = Piece::new(PieceType::Pawn, Player::White);
    let board = board_with(&[(rook, (3, 3)), (own_pawn, (3, 5))]);
    let tile = board.get_tile_at_pos((3, 3)).unwrap();
    let moves = MoveGeneration::gen_moves_rook(&tile, &board).unwrap();
    // The blocked ray keeps only the square strictly before the blocker.
    assert_eq!(
        end_positions(&moves),
        vec![
            (3, 4),
            (4, 3),
            (5, 3),
            (6, 3),
            (7, 3),
            (3, 2),
            (3, 1),
            (3, 0),
            (2, 3),
            (1, 3),
            (0, 3),
        ]
    );
}

#[test]
fn rook_ray_captures_and_stops() {
    let rook = Piece::new(PieceType::Rook, Player::White);
    let enemy_pawn = Piece::new(PieceType::Pawn, Player::Black);
    let board = board_with(&[(rook, (3, 3)), (enemy_pawn, (3, 5))]);
    let tile = board.get_tile_at_pos((3, 3)).unwrap();
    let moves = MoveGeneration::gen_moves_rook(&tile, &board).unwrap();
    // The blocked ray ends on the opposing piece's square, included as a
    // capture.
    assert_eq!(
        end_positions(&moves),
        vec![
            (3, 4),
            (3, 5),
            (4, 3),
            (5, 3),
            (6, 3),
            (7, 3),
            (3, 2),
            (3, 1),
            (3, 0),
            (2, 3),
            (1, 3),
            (0, 3),
        ]
    );
}

#[test]
fn bishop_corner_seven() {
    let bishop = Piece::new(PieceType::Bishop, Player::White);
    let board = board_with(&[(bishop, (0, 0))]);
    let tile = board.get_tile_at_pos((0, 0)).unwrap();
    let moves = MoveGeneration::gen_moves_bishop(&tile, &board).unwrap();
    assert_eq!(
        end_positions(&moves),
        vec![(1, 1), (2, 2), (3, 3), (4, 4), (5, 5), (6, 6), (7, 7)]
    );
}

#[test]
fn queen_center_twenty_seven() {
    let queen = Piece::new(PieceType::Queen, Player::Black);
    let board = board_with(&[(queen, (3, 3))]);
    let tile = board.get_tile_at_pos((3, 3)).unwrap();
    let moves = MoveGeneration::gen_moves_queen(&tile, &board).unwrap();
    assert_eq!(moves.len(), 27);
}

#[test]
fn king_gen_on_queen_faults() {
    let board = BoardState::new();
    let tile = board.get_tile_at_pos((0, 3)).unwrap();
    assert_eq!(tile.get_piece(), &Some(Piece::new(PieceType::Queen, Player::Black)));
    assert_eq!(MoveGeneration::gen_moves_king(&tile, &board), Err(Fault::WrongPieceType));
}

#[test]
fn every_generator_faults_on_wrong_type() {
    let board = BoardState::new();
    // (0, 4) holds the black king, the wrong piece type for all five
    // generators but the king's.
    let tile = board.get_tile_at_pos((0, 4)).unwrap();
    assert_eq!(MoveGeneration::gen_moves_queen(&tile, &board), Err(Fault::WrongPieceType));
    assert_eq!(MoveGeneration::gen_moves_rook(&tile, &board), Err(Fault::WrongPieceType));
    assert_eq!(MoveGeneration::gen_moves_bishop(&tile, &board), Err(Fault::WrongPieceType));
    assert_eq!(MoveGeneration::gen_moves_knight(&tile, &board), Err(Fault::WrongPieceType));
}

#[test]
fn generators_fault_on_empty_tile() {
    let board = BoardState::new();
    let tile = board.get_tile_at_pos((3, 3)).unwrap();
    assert_eq!(tile.get_piece(), &None);
    assert_eq!(MoveGeneration::gen_moves_king(&tile, &board), Err(Fault::EmptyTileDispatch));
    assert_eq!(MoveGeneration::gen_moves_rook(&tile, &board), Err(Fault::EmptyTileDispatch));
}
