use harmon::{Board, BoardBuilder, Move, MoveResult, Piece, Position, BLACK, WHITE};

const A1: Position = Position { row: 0, col: 0 };
const A2: Position = Position { row: 1, col: 0 };
const A3: Position = Position { row: 2, col: 0 };
const A4: Position = Position { row: 3, col: 0 };
const A8: Position = Position { row: 7, col: 0 };
const B1: Position = Position { row: 0, col: 1 };
const B2: Position = Position { row: 1, col: 1 };
const B4: Position = Position { row: 3, col: 1 };
const B5: Position = Position { row: 4, col: 1 };
const B7: Position = Position { row: 6, col: 1 };
const B8: Position = Position { row: 7, col: 1 };
const C1: Position = Position { row: 0, col: 2 };
const C2: Position = Position { row: 1, col: 2 };
const C3: Position = Position { row: 2, col: 2 };
const C4: Position = Position { row: 3, col: 2 };
const C5: Position = Position { row: 4, col: 2 };
const C6: Position = Position { row: 5, col: 2 };
const C7: Position = Position { row: 6, col: 2 };
const C8: Position = Position { row: 7, col: 2 };
const D1: Position = Position { row: 0, col: 3 };
const D2: Position = Position { row: 1, col: 3 };
const D3: Position = Position { row: 2, col: 3 };
const D4: Position = Position { row: 3, col: 3 };
const D5: Position = Position { row: 4, col: 3 };
const D6: Position = Position { row: 5, col: 3 };
const D7: Position = Position { row: 6, col: 3 };
const D8: Position = Position { row: 7, col: 3 };
const E1: Position = Position { row: 0, col: 4 };
const E2: Position = Position { row: 1, col: 4 };
const E3: Position = Position { row: 2, col: 4 };
const E4: Position = Position { row: 3, col: 4 };
const E5: Position = Position { row: 4, col: 4 };
const E6: Position = Position { row: 5, col: 4 };
const E7: Position = Position { row: 6, col: 4 };
const E8: Position = Position { row: 7, col: 4 };
const F1: Position = Position { row: 0, col: 5 };
const F2: Position = Position { row: 1, col: 5 };
const F3: Position = Position { row: 2, col: 5 };
const F4: Position = Position { row: 3, col: 5 };
const F5: Position = Position { row: 4, col: 5 };
const F6: Position = Position { row: 5, col: 5 };
const F7: Position = Position { row: 6, col: 5 };
const F8: Position = Position { row: 7, col: 5 };
const G1: Position = Position { row: 0, col: 6 };
const G2: Position = Position { row: 1, col: 6 };
const G3: Position = Position { row: 2, col: 6 };
const G4: Position = Position { row: 3, col: 6 };
const G5: Position = Position { row: 4, col: 6 };
const G6: Position = Position { row: 5, col: 6 };
const G8: Position = Position { row: 7, col: 6 };
const H1: Position = Position { row: 0, col: 7 };
const H4: Position = Position { row: 3, col: 7 };
const H5: Position = Position { row: 4, col: 7 };
const H7: Position = Position { row: 6, col: 7 };
const H8: Position = Position { row: 7, col: 7 };


#[test]
fn test_piece_get_name() {
    assert_eq!(Piece::Bishop(WHITE, A1).get_name(), "bishop");
    assert_eq!(Piece::King(WHITE, A1).get_name(), "king");
    assert_eq!(Piece::Knight(WHITE, A1).get_name(), "knight");
    assert_eq!(Piece::Queen(WHITE, A1).get_name(), "queen");
    assert_eq!(Piece::Pawn(WHITE, A1).get_name(), "pawn");
    assert_eq!(Piece::Rook(WHITE, A1).get_name(), "rook");
}

#[test]
fn test_piece_get_color() {
    assert_eq!(Piece::Bishop(WHITE, A1).get_color(), WHITE);
    assert_eq!(Piece::King(BLACK, A1).get_color(), BLACK);
    assert_eq!(Piece::Knight(WHITE, A1).get_color(), WHITE);
    assert_eq!(Piece::Queen(BLACK, A1).get_color(), BLACK);
    assert_eq!(Piece::Pawn(WHITE, A1).get_color(), WHITE);
    assert_eq!(Piece::Rook(BLACK, A1).get_color(), BLACK);
}

#[test]
fn test_piece_get_pos() {
    assert_eq!(Piece::Bishop(WHITE, D4).get_pos(), D4);
    assert_eq!(Piece::King(BLACK, D4).get_pos(), D4);
    assert_eq!(Piece::Knight(WHITE, D4).get_pos(), D4);
    assert_eq!(Piece::Queen(BLACK, D4).get_pos(), D4);
    assert_eq!(Piece::Pawn(WHITE, D4).get_pos(), D4);
    assert_eq!(Piece::Rook(BLACK, D4).get_pos(), D4);
}

#[test]
fn test_piece_get_material_value() {
    assert_eq!(Piece::Bishop(WHITE, D4).get_material_value(), 3);
    assert_eq!(Piece::King(BLACK, D4).get_material_value(), 99999);
    assert_eq!(Piece::Knight(WHITE, D4).get_material_value(), 3);
    assert_eq!(Piece::Queen(BLACK, D4).get_material_value(), 9);
    assert_eq!(Piece::Pawn(WHITE, D4).get_material_value(), 1);
    assert_eq!(Piece::Rook(BLACK, D4).get_material_value(), 5);
}

#[test]
fn test_piece_get_weighted_value() {
    assert_eq!(Piece::Bishop(WHITE, C2).get_weighted_value() as f64 / 2.0, 30.0);
    assert_eq!(Piece::Bishop(BLACK, C2).get_weighted_value() as f64 / 2.0, 30.0);
    assert_eq!(Piece::King(WHITE, D4).get_weighted_value() as f64 / 2.0, 999986.0);
    assert_eq!(Piece::King(BLACK, D4).get_weighted_value() as f64 / 2.0, 999985.0);
    assert_eq!(Piece::Knight(WHITE, E5).get_weighted_value() as f64 / 2.0, 32.0);
    assert_eq!(Piece::Knight(BLACK, E5).get_weighted_value() as f64 / 2.0, 32.0);
    assert_eq!(Piece::Queen(WHITE, F6).get_weighted_value() as f64 / 2.0, 90.5);
    assert_eq!(Piece::Queen(BLACK, F6).get_weighted_value() as f64 / 2.0, 90.5);
    assert_eq!(Piece::Pawn(WHITE, H4).get_weighted_value() as f64 / 2.0, 10.0);
    assert_eq!(Piece::Pawn(BLACK, H4).get_weighted_value() as f64 / 2.0, 10.5);
    assert_eq!(Piece::Rook(WHITE, A2).get_weighted_value() as f64 / 2.0, 49.5);
    assert_eq!(Piece::Rook(BLACK, A2).get_weighted_value() as f64 / 2.0, 50.5);
}

#[test]
fn test_piece_is_king() {
    assert_eq!(Piece::King(WHITE, D4).is_king(), true);
    assert_eq!(Piece::Bishop(BLACK, C2).is_king(), false);
}

#[test]
fn test_piece_is_queen() {
    assert_eq!(Piece::Queen(WHITE, D4).is_queen(), true);
    assert_eq!(Piece::Bishop(BLACK, C2).is_queen(), false);
}

#[test]
fn test_piece_is_rook() {
    assert_eq!(Piece::Rook(WHITE, D4).is_rook(), true);
    assert_eq!(Piece::Bishop(BLACK, C2).is_rook(), false);
}

#[test]
fn test_piece_is_bishop() {
    assert_eq!(Piece::Bishop(BLACK, C2).is_bishop(), true);
    assert_eq!(Piece::Rook(WHITE, D4).is_bishop(), false);
}

#[test]
fn test_piece_is_pawn() {
    assert_eq!(Piece::Pawn(BLACK, C2).is_pawn(), true);
    assert_eq!(Piece::Rook(WHITE, D4).is_pawn(), false);
}

#[test]
fn test_piece_is_knight() {
    assert_eq!(Piece::Knight(BLACK, C2).is_knight(), true);
    assert_eq!(Piece::Rook(WHITE, D4).is_knight(), false);
}

#[test]
fn test_piece_is_starting_pawn() {
    // White pawns
    assert_eq!(Piece::Pawn(WHITE, B2).is_starting_pawn(), true);
    assert_eq!(Piece::Pawn(WHITE, C2).is_starting_pawn(), true);
    assert_eq!(Piece::Pawn(BLACK, B2).is_starting_pawn(), false);
    assert_eq!(Piece::Pawn(BLACK, C2).is_starting_pawn(), false);
    // Black pawns
    assert_eq!(Piece::Pawn(BLACK, B7).is_starting_pawn(), true);
    assert_eq!(Piece::Pawn(BLACK, C7).is_starting_pawn(), true);
    assert_eq!(Piece::Pawn(WHITE, B7).is_starting_pawn(), false);
    assert_eq!(Piece::Pawn(WHITE, C7).is_starting_pawn(), false);
    // others
    assert_eq!(Piece::Queen(WHITE, C2).is_starting_pawn(), false);
    assert_eq!(Piece::Bishop(BLACK, C7).is_starting_pawn(), false);
}

#[test]
fn test_piece_is_queenside_rook() {
    assert_eq!(Piece::Rook(WHITE, A1).is_queenside_rook(), true);
    assert_eq!(Piece::Rook(BLACK, A8).is_queenside_rook(), true);
    assert_eq!(Piece::Rook(BLACK, A1).is_queenside_rook(), false);
    assert_eq!(Piece::Rook(WHITE, A8).is_queenside_rook(), false);
}

#[test]
fn test_piece_is_kingside_rook() {
    assert_eq!(Piece::Rook(WHITE, H1).is_kingside_rook(), true);
    assert_eq!(Piece::Rook(BLACK, H8).is_kingside_rook(), true);
    assert_eq!(Piece::Rook(BLACK, H1).is_kingside_rook(), false);
    assert_eq!(Piece::Rook(WHITE, H8).is_kingside_rook(), false);
}

#[test]
fn test_piece_move_to() {
    assert_eq!(Piece::Rook(WHITE, H1).move_to(H8), Piece::Rook(WHITE, H8));
}

#[test]
fn test_piece_with_color() {
    assert_eq!(
        Piece::Rook(WHITE, H1).with_color(BLACK),
        Piece::Rook(BLACK, H1)
    );
}

#[test]
fn test_piece_get_pawn_legal_moves_starting_position() {
    // Starting pawn (white)
    assert_eq!(
        Piece::Pawn(WHITE, E2).get_legal_moves(&Board::default()),
        vec![Move::Piece(E2, E4), Move::Piece(E2, E3)]
    );
    // Starting pawn (black)
    assert_eq!(
        Piece::Pawn(BLACK, F7).get_legal_moves(&Board::default()),
        vec![Move::Piece(F7, F5), Move::Piece(F7, F6)]
    );
}

#[test]
fn test_piece_get_pawn_legal_moves_last_position() {
    // Starting pawn (white)
    let board: Board = BoardBuilder::default()
        .enable_castling()
        .piece(Piece::Pawn(WHITE, H8))
        .piece(Piece::Pawn(BLACK, A1))
        .build();
    assert_eq!(Piece::Pawn(WHITE, H8).get_legal_moves(&board), Vec::<Move>::new());
    // Starting pawn (black)
    assert_eq!(Piece::Pawn(BLACK, A1).get_legal_moves(&board), Vec::<Move>::new());
}

#[test]
fn test_piece_get_pawn_legal_moves_already_moved() {
    // Not starting position pawn
    let board: Board = BoardBuilder::default()
        .enable_castling()
        .piece(Piece::Pawn(WHITE, E3))
        .build();
    assert_eq!(
        Piece::Pawn(WHITE, E3).get_legal_moves(&board),
        vec![Move::Piece(E3, E4)]
    );
}

#[test]
fn test_piece_get_pawn_legal_moves_can_take() {
    // Can take pawn (white)
    let board: Board = BoardBuilder::default()
        .enable_castling()
        .piece(Piece::Pawn(WHITE, E4))
        .piece(Piece::Pawn(BLACK, D5))
        .piece(Piece::Pawn(BLACK, F5))
        .build();
    assert_eq!(
        Piece::Pawn(WHITE, E4).get_legal_moves(&board),
        vec![
            Move::Piece(E4, E5),
            Move::Piece(E4, D5),
            Move::Piece(E4, F5)
        ]
    );
    // Can take pawn (black)
    let board: Board = BoardBuilder::default()
        .enable_castling()
        .piece(Piece::Pawn(BLACK, E5))
        .piece(Piece::Pawn(WHITE, D4))
        .piece(Piece::Pawn(WHITE, F4))
        .build();
    assert_eq!(
        Piece::Pawn(BLACK, E5).get_legal_moves(&board),
        vec![
            Move::Piece(E5, E4),
            Move::Piece(E5, D4),
            Move::Piece(E5, F4)
        ]
    );
}

#[test]
fn test_piece_get_pawn_legal_moves_opposite() {
    // Opposite pawn
    let board: Board = BoardBuilder::default()
        .enable_castling()
        .piece(Piece::Pawn(WHITE, E4))
        .piece(Piece::Pawn(BLACK, E5))
        .build();
    assert_eq!(Piece::Pawn(WHITE, E4).get_legal_moves(&board), Vec::<Move>::new());
    assert_eq!(Piece::Pawn(BLACK, E5).get_legal_moves(&board), Vec::<Move>::new());
}

#[test]
fn test_piece_get_pawn_legal_moves_en_passant() {
    // En passant - edge case 😈
    let mut board: Board = Board::default();
    if let MoveResult::Continuing(next_board) = board.play_move(Move::Piece(E2, E4)) {
        // White pawn
        board = next_board;
    }
    if let MoveResult::Continuing(next_board) = board.play_move(Move::Piece(H7, H5)) {
        // Black pawn
        board = next_board;
    }
    if let MoveResult::Continuing(next_board) = board.play_move(Move::Piece(E4, E5)) {
        // White pawn
        board = next_board;
    }
    if let MoveResult::Continuing(next_board) = board.play_move(Move::Piece(F7, F5)) {
        // Black pawn
        board = next_board;
    }
    assert_eq!(
        Piece::Pawn(WHITE, E5).get_legal_moves(&board),
        vec![
            Move::Piece(E5, F6), // En passant
            Move::Piece(E5, E6),
        ]
    );
}

#[test]
fn test_piece_get_pawn_legal_moves_discovered_check() {
    // Discovered check by rook
    let board: Board = BoardBuilder::default()
        .enable_castling()
        .piece(Piece::Pawn(WHITE, E4))
        .piece(Piece::Pawn(BLACK, F5)) // Could capture, but discovered check by rook
        .piece(Piece::Rook(BLACK, E8))
        .piece(Piece::King(WHITE, E1))
        .build();
    assert_eq!(
        Piece::Pawn(WHITE, E4).get_legal_moves(&board),
        vec![Move::Piece(E4, E5)]
    );
}

#[test]
fn test_piece_get_king_legal_moves_starting_position() {
    // King without free squares
    assert_eq!(
        Piece::King(WHITE, E1).get_legal_moves(&Board::default()),
        vec![]
    );
    assert_eq!(
        Piece::King(BLACK, E8).get_legal_moves(&Board::default()),
        vec![]
    );
}

#[test]
fn test_piece_get_king_legal_moves_free_squares() {
    // King in the middle of the board, no threatened
    let board: Board = BoardBuilder::default()
        .enable_castling()
        .piece(Piece::King(WHITE, E5))
        .build();
    assert_eq!(
        Piece::King(WHITE, E5).get_legal_moves(&board),
        vec![
            Move::Piece(E5, D5),
            Move::Piece(E5, F5),
            Move::Piece(E5, E6),
            Move::Piece(E5, E4),
            Move::Piece(E5, D6),
            Move::Piece(E5, D4),
            Move::Piece(E5, F6),
            Move::Piece(E5, F4),
        ]
    );
}

#[test]
fn test_piece_get_king_legal_moves_rook_on_left() {
    // King in the middle of the board, rook on the left
    let board: Board = BoardBuilder::default()
        .enable_castling()
        .piece(Piece::King(WHITE, E5))
        .piece(Piece::Rook(BLACK, D8))
        .build();
    assert_eq!(
        Piece::King(WHITE, E5).get_legal_moves(&board),
        vec![
            Move::Piece(E5, F5),
            Move::Piece(E5, E6),
            Move::Piece(E5, E4),
            Move::Piece(E5, F6),
            Move::Piece(E5, F4),
        ]
    );
}

#[test]
fn test_piece_get_king_legal_moves_rook_on_left_can_take() {
    // King in the middle of the board, rook on the left, can take rook
    let board: Board = BoardBuilder::default()
        .enable_castling()
        .piece(Piece::King(WHITE, E5))
        .piece(Piece::Rook(BLACK, D5))
        .build();
    assert_eq!(
        Piece::King(WHITE, E5).get_legal_moves(&board),
        vec![
            Move::Piece(E5, D5),
            Move::Piece(E5, E6),
            Move::Piece(E5, E4),
            Move::Piece(E5, F6),
            Move::Piece(E5, F4),
        ]
    );
}

#[test]
fn test_piece_get_king_legal_moves_protected_rook_check() {
    // King, checked by a protected rook on the left
    let board: Board = BoardBuilder::default()
        .enable_castling()
        .piece(Piece::King(WHITE, E5))
        .piece(Piece::Rook(BLACK, D5))
        .piece(Piece::Pawn(BLACK, C6))
        .build();
    assert_eq!(
        Piece::King(WHITE, E5).get_legal_moves(&board),
        vec![
            Move::Piece(E5, E6),
            Move::Piece(E5, E4),
            Move::Piece(E5, F6),
            Move::Piece(E5, F4),
        ]
    );
}

#[test]
fn test_piece_get_king_legal_moves_castling() {
    // Kingside Castling (giuoco piano)
    let mut board: Board = Board::default();
    if let MoveResult::Continuing(next_board) = board.play_move(Move::Piece(E2, E4)) {
        board = next_board;
    }
    if let MoveResult::Continuing(next_board) = board.play_move(Move::Piece(E7, E5)) {
        board = next_board;
    }
    if let MoveResult::Continuing(next_board) = board.play_move(Move::Piece(G1, F3)) {
        board = next_board;
    }
    if let MoveResult::Continuing(next_board) = board.play_move(Move::Piece(B8, C6)) {
        board = next_board;
    }
    if let MoveResult::Continuing(next_board) = board.play_move(Move::Piece(F1, C4)) {
        board = next_board;
    }
    if let MoveResult::Continuing(next_board) = board.play_move(Move::Piece(F8, C5)) {
        board = next_board;
    }
    assert_eq!(
        Piece::King(WHITE, E1).get_legal_moves(&board),
        vec![
            Move::Piece(E1, F1),
            Move::Piece(E1, E2),
            Move::KingSideCastle, // Castle
        ]
    );
    // Also black can castle now
    if let MoveResult::Continuing(next_board) = board.play_move(Move::Piece(C2, C3)) {
        board = next_board;
    }
    if let MoveResult::Continuing(next_board) = board.play_move(Move::Piece(G8, F6)) {
        board = next_board;
    }
    assert_eq!(
        Piece::King(BLACK, E8).get_legal_moves(&board),
        vec![
            Move::Piece(E8, F8),
            Move::Piece(E8, E7),
            Move::KingSideCastle
        ]
    );
    // Allow also queenside castling
    if let MoveResult::Continuing(next_board) = board.play_move(Move::Piece(D1, A4)) {
        board = next_board;
    }
    if let MoveResult::Continuing(next_board) = board.play_move(Move::Piece(D8, E7)) {
        board = next_board;
    }
    if let MoveResult::Continuing(next_board) = board.play_move(Move::Piece(B1, A3)) {
        board = next_board;
    }
    if let MoveResult::Continuing(next_board) = board.play_move(Move::Piece(B7, B5)) {
        board = next_board;
    }
    if let MoveResult::Continuing(next_board) = board.play_move(Move::Piece(D2, D4)) {
        board = next_board;
    }
    if let MoveResult::Continuing(next_board) = board.play_move(Move::Piece(C8, B7)) {
        board = next_board;
    }
    if let MoveResult::Continuing(next_board) = board.play_move(Move::Piece(C1, G5)) {
        board = next_board;
    }
    assert_eq!(
        Piece::King(BLACK, E8).get_legal_moves(&board),
        vec![
            Move::Piece(E8, D8),
            Move::Piece(E8, F8),
            Move::KingSideCastle,
            Move::QueenSideCastle
        ]
    );
    if let MoveResult::Continuing(next_board) = board.play_move(Move::Piece(E8, C8)) {
        board = next_board;
    }
    assert_eq!(
        Piece::King(WHITE, E1).get_legal_moves(&board),
        vec![
            Move::Piece(E1, D1),
            Move::Piece(E1, F1),
            Move::Piece(E1, E2),
            Move::Piece(E1, D2),
            Move::KingSideCastle,
            Move::QueenSideCastle
        ]
    );
}

#[test]
fn test_piece_get_king_legal_moves_check_mate() {
    let board: Board = BoardBuilder::default()
        .enable_castling()
        .piece(Piece::King(WHITE, E1))
        .piece(Piece::Queen(BLACK, E2))
        .piece(Piece::Rook(BLACK, E8))
        .build();
    assert_eq!(Piece::King(WHITE, E1).get_legal_moves(&board), Vec::<Move>::new());
}

#[test]
fn test_piece_get_queen_legal_moves_free() {
    let board: Board = BoardBuilder::default()
        .enable_castling()
        .piece(Piece::Queen(WHITE, E4))
        .build();
    assert_eq!(
        Piece::Queen(WHITE, E4).get_legal_moves(&board),
        vec![
            Move::Piece(E4, B1),
            Move::Piece(E4, H1),
            Move::Piece(E4, C2),
            Move::Piece(E4, G2),
            Move::Piece(E4, D3),
            Move::Piece(E4, F3),
            Move::Piece(E4, D5),
            Move::Piece(E4, F5),
            Move::Piece(E4, C6),
            Move::Piece(E4, G6),
            Move::Piece(E4, B7),
            Move::Piece(E4, H7),
            Move::Piece(E4, A8),
            Move::Piece(E4, E1),
            Move::Piece(E4, E2),
            Move::Piece(E4, E3),
            Move::Piece(E4, E5),
            Move::Piece(E4, E6),
            Move::Piece(E4, E7),
            Move::Piece(E4, E8),
            Move::Piece(E4, A4),
            Move::Piece(E4, B4),
            Move::Piece(E4, C4),
            Move::Piece(E4, D4),
            Move::Piece(E4, F4),
            Move::Piece(E4, G4),
            Move::Piece(E4, H4),
        ]
    );
}

#[test]
fn test_piece_get_queen_legal_moves_blocked() {
    assert_eq!(
        Piece::Queen(WHITE, D1).get_legal_moves(&Board::default()),
        vec![]
    );
    assert_eq!(
        Piece::Queen(BLACK, D8).get_legal_moves(&Board::default()),
        vec![]
    );
}

#[test]
fn test_piece_get_queen_legal_moves_piece_on_diagonal() {
    let board: Board = BoardBuilder::default()
        .enable_castling()
        .piece(Piece::Queen(WHITE, D4))
        .piece(Piece::Bishop(BLACK, E3))
        .piece(Piece::Bishop(BLACK, E5))
        .piece(Piece::Bishop(BLACK, C3))
        .piece(Piece::Bishop(BLACK, C5))
        .build();
    assert_eq!(
        Piece::Queen(WHITE, D4).get_legal_moves(&board),
        vec![
            Move::Piece(D4, C3),
            Move::Piece(D4, E3),
            Move::Piece(D4, C5),
            Move::Piece(D4, E5),
            Move::Piece(D4, D1),
            Move::Piece(D4, D2),
            Move::Piece(D4, D3),
            Move::Piece(D4, D5),
            Move::Piece(D4, D6),
            Move::Piece(D4, D7),
            Move::Piece(D4, D8),
            Move::Piece(D4, A4),
            Move::Piece(D4, B4),
            Move::Piece(D4, C4),
            Move::Piece(D4, E4),
            Move::Piece(D4, F4),
            Move::Piece(D4, G4),
            Move::Piece(D4, H4),
        ]
    );
}

#[test]
fn test_piece_get_queen_legal_moves_piece_on_line() {
    let board: Board = BoardBuilder::default()
        .enable_castling()
        .piece(Piece::Queen(WHITE, E4))
        .piece(Piece::Rook(BLACK, C4))
        .piece(Piece::Rook(BLACK, G4))
        .build();
    assert_eq!(
        Piece::Queen(WHITE, E4).get_legal_moves(&board),
        vec![
            Move::Piece(E4, B1),
            Move::Piece(E4, H1),
            Move::Piece(E4, C2),
            Move::Piece(E4, G2),
            Move::Piece(E4, D3),
            Move::Piece(E4, F3),
            Move::Piece(E4, D5),
            Move::Piece(E4, F5),
            Move::Piece(E4, C6),
            Move::Piece(E4, G6),
            Move::Piece(E4, B7),
            Move::Piece(E4, H7),
            Move::Piece(E4, A8),
            Move::Piece(E4, E1),
            Move::Piece(E4, E2),
            Move::Piece(E4, E3),
            Move::Piece(E4, E5),
            Move::Piece(E4, E6),
            Move::Piece(E4, E7),
            Move::Piece(E4, E8),
            Move::Piece(E4, C4),
            Move::Piece(E4, D4),
            Move::Piece(E4, F4),
            Move::Piece(E4, G4),
        ]
    );
}

#[test]
fn test_piece_get_queen_legal_moves_piece_on_column() {
    let board: Board = BoardBuilder::default()
        .enable_castling()
        .piece(Piece::Queen(WHITE, E4))
        .piece(Piece::Rook(BLACK, E2))
        .piece(Piece::Rook(BLACK, E6))
        .build();
    assert_eq!(
        Piece::Queen(WHITE, E4).get_legal_moves(&board),
        vec![
            Move::Piece(E4, B1),
            Move::Piece(E4, H1),
            Move::Piece(E4, C2),
            Move::Piece(E4, G2),
            Move::Piece(E4, D3),
            Move::Piece(E4, F3),
            Move::Piece(E4, D5),
            Move::Piece(E4, F5),
            Move::Piece(E4, C6),
            Move::Piece(E4, G6),
            Move::Piece(E4, B7),
            Move::Piece(E4, H7),
            Move::Piece(E4, A8),
            Move::Piece(E4, E2),
            Move::Piece(E4, E3),
            Move::Piece(E4, E5),
            Move::Piece(E4, E6),
            Move::Piece(E4, A4),
            Move::Piece(E4, B4),
            Move::Piece(E4, C4),
            Move::Piece(E4, D4),
            Move::Piece(E4, F4),
            Move::Piece(E4, G4),
            Move::Piece(E4, H4),
        ]
    );
}

#[test]
fn test_piece_get_queen_legal_moves_discovered_check() {
    let board: Board = BoardBuilder::default()
        .enable_castling()
        .piece(Piece::Queen(WHITE, E4))
        .piece(Piece::King(WHITE, E1))
        .piece(Piece::Rook(BLACK, E8))
        .build();
    assert_eq!(
        Piece::Queen(WHITE, E4).get_legal_moves(&board),
        vec![
            Move::Piece(E4, E2),
            Move::Piece(E4, E3),
            Move::Piece(E4, E5),
            Move::Piece(E4, E6),
            Move::Piece(E4, E7),
            Move::Piece(E4, E8),
        ]
    );
}

#[test]
fn test_piece_get_rook_legal_moves_free() {
    let board: Board = BoardBuilder::default()
        .enable_castling()
        .piece(Piece::Rook(WHITE, E4))
        .build();
    assert_eq!(
        Piece::Rook(WHITE, E4).get_legal_moves(&board),
        vec![
            Move::Piece(E4, E1),
            Move::Piece(E4, E2),
            Move::Piece(E4, E3),
            Move::Piece(E4, E5),
            Move::Piece(E4, E6),
            Move::Piece(E4, E7),
            Move::Piece(E4, E8),
            Move::Piece(E4, A4),
            Move::Piece(E4, B4),
            Move::Piece(E4, C4),
            Move::Piece(E4, D4),
            Move::Piece(E4, F4),
            Move::Piece(E4, G4),
            Move::Piece(E4, H4),
        ]
    );
}

#[test]
fn test_piece_get_rook_legal_moves_blocked() {
    assert_eq!(
        Piece::Rook(WHITE, A1).get_legal_moves(&Board::default()),
        vec![]
    );
    assert_eq!(
        Piece::Rook(BLACK, H8).get_legal_moves(&Board::default()),
        vec![]
    );
}

#[test]
fn test_piece_get_rook_legal_moves_piece_on_col() {
    let board: Board = BoardBuilder::default()
        .enable_castling()
        .piece(Piece::Rook(WHITE, E4))
        .piece(Piece::Knight(BLACK, E6))
        .piece(Piece::Knight(WHITE, E1))
        .build();
    assert_eq!(
        Piece::Rook(WHITE, E4).get_legal_moves(&board),
        vec![
            Move::Piece(E4, E2),
            Move::Piece(E4, E3),
            Move::Piece(E4, E5),
            Move::Piece(E4, E6),
            Move::Piece(E4, A4),
            Move::Piece(E4, B4),
            Move::Piece(E4, C4),
            Move::Piece(E4, D4),
            Move::Piece(E4, F4),
            Move::Piece(E4, G4),
            Move::Piece(E4, H4),
        ]
    );
}

#[test]
fn test_piece_get_rook_legal_moves_piece_on_row() {
    let board: Board = BoardBuilder::default()
        .enable_castling()
        .piece(Piece::Rook(WHITE, E4))
        .piece(Piece::Queen(BLACK, G4))
        .piece(Piece::Queen(WHITE, B4))
        .build();
    assert_eq!(
        Piece::Rook(WHITE, E4).get_legal_moves(&board),
        vec![
            Move::Piece(E4, E1),
            Move::Piece(E4, E2),
            Move::Piece(E4, E3),
            Move::Piece(E4, E5),
            Move::Piece(E4, E6),
            Move::Piece(E4, E7),
            Move::Piece(E4, E8),
            Move::Piece(E4, C4),
            Move::Piece(E4, D4),
            Move::Piece(E4, F4),
            Move::Piece(E4, G4),
        ]
    );
}

#[test]
fn test_piece_get_rook_legal_moves_discovered_check() {
    let board: Board = BoardBuilder::default()
        .enable_castling()
        .piece(Piece::Rook(WHITE, E4))
        .piece(Piece::King(WHITE, E1))
        .piece(Piece::Rook(BLACK, E7))
        .build();
    assert_eq!(
        Piece::Rook(WHITE, E4).get_legal_moves(&board),
        vec![
            Move::Piece(E4, E2),
            Move::Piece(E4, E3),
            Move::Piece(E4, E5),
            Move::Piece(E4, E6),
            Move::Piece(E4, E7),
        ]
    );
}

#[test]
fn test_piece_get_bishop_legal_moves_free() {
    let board: Board = BoardBuilder::default()
        .enable_castling()
        .piece(Piece::Bishop(WHITE, E4))
        .build();
    assert_eq!(
        Piece::Bishop(WHITE, E4).get_legal_moves(&board),
        vec![
            Move::Piece(E4, B1),
            Move::Piece(E4, H1),
            Move::Piece(E4, C2),
            Move::Piece(E4, G2),
            Move::Piece(E4, D3),
            Move::Piece(E4, F3),
            Move::Piece(E4, D5),
            Move::Piece(E4, F5),
            Move::Piece(E4, C6),
            Move::Piece(E4, G6),
            Move::Piece(E4, B7),
            Move::Piece(E4, H7),
            Move::Piece(E4, A8),
        ]
    );
}

#[test]
fn test_piece_get_bishop_legal_moves_blocked() {
    assert_eq!(
        Piece::Bishop(WHITE, C1).get_legal_moves(&Board::default()),
        vec![]
    );
    assert_eq!(
        Piece::Bishop(BLACK, F8).get_legal_moves(&Board::default()),
        vec![]
    );
}

#[test]
fn test_piece_get_bishop_legal_moves_piece_on_diagonal() {
    let board: Board = BoardBuilder::default()
        .enable_castling()
        .piece(Piece::Bishop(WHITE, E4))
        .piece(Piece::Bishop(BLACK, G6))
        .piece(Piece::Pawn(WHITE, C2))
        .build();
    assert_eq!(
        Piece::Bishop(WHITE, E4).get_legal_moves(&board),
        vec![
            Move::Piece(E4, H1),
            Move::Piece(E4, G2),
            Move::Piece(E4, D3),
            Move::Piece(E4, F3),
            Move::Piece(E4, D5),
            Move::Piece(E4, F5),
            Move::Piece(E4, C6),
            Move::Piece(E4, G6),
            Move::Piece(E4, B7),
            Move::Piece(E4, A8),
        ]
    );
}

#[test]
fn test_piece_get_bishop_legal_moves_discovered_check() {
    let board: Board = BoardBuilder::default()
        .enable_castling()
        .piece(Piece::Bishop(WHITE, E4))
        .piece(Piece::Bishop(BLACK, G6))
        .piece(Piece::King(WHITE, C2))
        .build();
    assert_eq!(
        Piece::Bishop(WHITE, E4).get_legal_moves(&board),
        vec![
            Move::Piece(E4, D3),
            Move::Piece(E4, F5),
            Move::Piece(E4, G6),
        ]
    );
}

#[test]
fn test_piece_get_knight_legal_moves_free() {
    let board: Board = BoardBuilder::default()
        .enable_castling()
        .piece(Piece::Knight(WHITE, E4))
        .build();
    assert_eq!(
        Piece::Knight(WHITE, E4).get_legal_moves(&board),
        vec![
            Move::Piece(E4, C5),
            Move::Piece(E4, D6),
            Move::Piece(E4, C3),
            Move::Piece(E4, D2),
            Move::Piece(E4, G5),
            Move::Piece(E4, F6),
            Move::Piece(E4, G3),
            Move::Piece(E4, F2),
        ]
    );
}

#[test]
fn test_piece_get_knight_legal_moves_busy() {
    let board: Board = BoardBuilder::default()
        .enable_castling()
        .piece(Piece::Knight(WHITE, E4))
        .piece(Piece::Knight(BLACK, C5))
        .piece(Piece::Knight(WHITE, D6))
        .build();
    assert_eq!(
        Piece::Knight(WHITE, E4).get_legal_moves(&board),
        vec![
            Move::Piece(E4, C5),
            Move::Piece(E4, C3),
            Move::Piece(E4, D2),
            Move::Piece(E4, G5),
            Move::Piece(E4, F6),
            Move::Piece(E4, G3),
            Move::Piece(E4, F2),
        ]
    );
}

#[test]
fn test_piece_get_knight_legal_moves_discovered_check() {
    let board: Board = BoardBuilder::default()
        .enable_castling()
        .piece(Piece::Knight(WHITE, E4))
        .piece(Piece::King(WHITE, B1))
        .piece(Piece::Bishop(BLACK, H7))
        .build();
    assert_eq!(Piece::Knight(WHITE, E4).get_legal_moves(&board), Vec::<Move>::new());
}

#[test]
fn test_piece_fmt() {
    assert_eq!(Piece::Bishop(WHITE, A1).to_string(), "♗");
    assert_eq!(Piece::Bishop(BLACK, A1).to_string(), "♝");
    assert_eq!(Piece::King(WHITE, A1).to_string(), "♔");
    assert_eq!(Piece::King(BLACK, A1).to_string(), "♚");
    assert_eq!(Piece::Knight(WHITE, A1).to_string(), "♘");
    assert_eq!(Piece::Knight(BLACK, A1).to_string(), "♞");
    assert_eq!(Piece::Queen(WHITE, A1).to_string(), "♕");
    assert_eq!(Piece::Queen(BLACK, A1).to_string(), "♛");
    assert_eq!(Piece::Pawn(WHITE, A1).to_string(), "♙");
    assert_eq!(Piece::Pawn(BLACK, A1).to_string(), "♟");
    assert_eq!(Piece::Rook(WHITE, A1).to_string(), "♖");
    assert_eq!(Piece::Rook(BLACK, A1).to_string(), "♜");
}
