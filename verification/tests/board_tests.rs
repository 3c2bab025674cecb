use harmon::{
    Board, BoardBuilder, Move, MoveResult, Piece, Position, Promotion, RatedMove, BLACK, WHITE,
};

const A1: Position = Position { row: 0, col: 0 };
const A2: Position = Position { row: 1, col: 0 };
const A3: Position = Position { row: 2, col: 0 };
const A4: Position = Position { row: 3, col: 0 };
const A5: Position = Position { row: 4, col: 0 };
const A6: Position = Position { row: 5, col: 0 };
const A7: Position = Position { row: 6, col: 0 };
const A8: Position = Position { row: 7, col: 0 };
const B1: Position = Position { row: 0, col: 1 };
const B2: Position = Position { row: 1, col: 1 };
const B3: Position = Position { row: 2, col: 1 };
const B4: Position = Position { row: 3, col: 1 };
const B5: Position = Position { row: 4, col: 1 };
const B6: Position = Position { row: 5, col: 1 };
const B7: Position = Position { row: 6, col: 1 };
const B8: Position = Position { row: 7, col: 1 };
const C1: Position = Position { row: 0, col: 2 };
const C2: Position = Position { row: 1, col: 2 };
const C3: Position = Position { row: 2, col: 2 };
const C4: Position = Position { row: 3, col: 2 };
const C5: Position = Position { row: 4, col: 2 };
const C6: Position = Position { row: 5, col: 2 };
const C7: Position = Position { row: 6, col: 2 };
const C8: Position = Position { row: 7, col: 2 };
const D1: Position = Position { row: 0, col: 3 };
const D2: Position = Position { row: 1, col: 3 };
const D3: Position = Position { row: 2, col: 3 };
const D4: Position = Position { row: 3, col: 3 };
const D5: Position = Position { row: 4, col: 3 };
const D6: Position = Position { row: 5, col: 3 };
const D7: Position = Position { row: 6, col: 3 };
const D8: Position = Position { row: 7, col: 3 };
const E1: Position = Position { row: 0, col: 4 };
const E2: Position = Position { row: 1, col: 4 };
const E3: Position = Position { row: 2, col: 4 };
const E4: Position = Position { row: 3, col: 4 };
const E5: Position = Position { row: 4, col: 4 };
const E6: Position = Position { row: 5, col: 4 };
const E7: Position = Position { row: 6, col: 4 };
const E8: Position = Position { row: 7, col: 4 };
const F1: Position = Position { row: 0, col: 5 };
const F2: Position = Position { row: 1, col: 5 };
const F3: Position = Position { row: 2, col: 5 };
const F4: Position = Position { row: 3, col: 5 };
const F5: Position = Position { row: 4, col: 5 };
const F6: Position = Position { row: 5, col: 5 };
const F7: Position = Position { row: 6, col: 5 };
const F8: Position = Position { row: 7, col: 5 };
const G1: Position = Position { row: 0, col: 6 };
const G2: Position = Position { row: 1, col: 6 };
const G3: Position = Position { row: 2, col: 6 };
const G4: Position = Position { row: 3, col: 6 };
const G5: Position = Position { row: 4, col: 6 };
const G6: Position = Position { row: 5, col: 6 };
const G7: Position = Position { row: 6, col: 6 };
const G8: Position = Position { row: 7, col: 6 };
const H1: Position = Position { row: 0, col: 7 };
const H2: Position = Position { row: 1, col: 7 };
const H3: Position = Position { row: 2, col: 7 };
const H4: Position = Position { row: 3, col: 7 };
const H5: Position = Position { row: 4, col: 7 };
const H6: Position = Position { row: 5, col: 7 };
const H7: Position = Position { row: 6, col: 7 };
const H8: Position = Position { row: 7, col: 7 };

/// A rated move with its score in points.
fn halved(rated: RatedMove) -> (Move, f64) {
    (rated.0, rated.1 as f64 / 2.0)
}

/// The ratings in percent that two shares stand for.
fn percent(shares: (i64, i64)) -> (f64, f64) {
    let total = (shares.0 + shares.1) as f64;
    (
        shares.0 as f64 / total * 100.0,
        shares.1 as f64 / total * 100.0,
    )
}


#[test]
fn mod_default() {
    let board: Board = Board::default();
    // Black
    assert_eq!(board.get_piece(A8).unwrap(), Piece::Rook(BLACK, A8));
    assert_eq!(board.get_piece(B8).unwrap(), Piece::Knight(BLACK, B8));
    assert_eq!(board.get_piece(C8).unwrap(), Piece::Bishop(BLACK, C8));
    assert_eq!(board.get_piece(D8).unwrap(), Piece::Queen(BLACK, D8));
    assert_eq!(board.get_piece(E8).unwrap(), Piece::King(BLACK, E8));
    assert_eq!(board.get_piece(F8).unwrap(), Piece::Bishop(BLACK, F8));
    assert_eq!(board.get_piece(G8).unwrap(), Piece::Knight(BLACK, G8));
    assert_eq!(board.get_piece(H8).unwrap(), Piece::Rook(BLACK, H8));
    assert_eq!(board.get_piece(A7).unwrap(), Piece::Pawn(BLACK, A7));
    assert_eq!(board.get_piece(B7).unwrap(), Piece::Pawn(BLACK, B7));
    assert_eq!(board.get_piece(C7).unwrap(), Piece::Pawn(BLACK, C7));
    assert_eq!(board.get_piece(D7).unwrap(), Piece::Pawn(BLACK, D7));
    assert_eq!(board.get_piece(E7).unwrap(), Piece::Pawn(BLACK, E7));
    assert_eq!(board.get_piece(F7).unwrap(), Piece::Pawn(BLACK, F7));
    assert_eq!(board.get_piece(G7).unwrap(), Piece::Pawn(BLACK, G7));
    assert_eq!(board.get_piece(H7).unwrap(), Piece::Pawn(BLACK, H7));
    // White
    assert_eq!(board.get_piece(A2).unwrap(), Piece::Pawn(WHITE, A2));
    assert_eq!(board.get_piece(B2).unwrap(), Piece::Pawn(WHITE, B2));
    assert_eq!(board.get_piece(C2).unwrap(), Piece::Pawn(WHITE, C2));
    assert_eq!(board.get_piece(D2).unwrap(), Piece::Pawn(WHITE, D2));
    assert_eq!(board.get_piece(E2).unwrap(), Piece::Pawn(WHITE, E2));
    assert_eq!(board.get_piece(F2).unwrap(), Piece::Pawn(WHITE, F2));
    assert_eq!(board.get_piece(G2).unwrap(), Piece::Pawn(WHITE, G2));
    assert_eq!(board.get_piece(H2).unwrap(), Piece::Pawn(WHITE, H2));
    assert_eq!(board.get_piece(A1).unwrap(), Piece::Rook(WHITE, A1));
    assert_eq!(board.get_piece(B1).unwrap(), Piece::Knight(WHITE, B1));
    assert_eq!(board.get_piece(C1).unwrap(), Piece::Bishop(WHITE, C1));
    assert_eq!(board.get_piece(D1).unwrap(), Piece::Queen(WHITE, D1));
    assert_eq!(board.get_piece(E1).unwrap(), Piece::King(WHITE, E1));
    assert_eq!(board.get_piece(F1).unwrap(), Piece::Bishop(WHITE, F1));
    assert_eq!(board.get_piece(G1).unwrap(), Piece::Knight(WHITE, G1));
    assert_eq!(board.get_piece(H1).unwrap(), Piece::Rook(WHITE, H1));
    // Castling rights
    assert_eq!(board.black_castling_rights.can_kingside_castle(), true);
    assert_eq!(board.black_castling_rights.can_queenside_castle(), true);
    assert_eq!(board.white_castling_rights.can_kingside_castle(), true);
    assert_eq!(board.white_castling_rights.can_queenside_castle(), true);
    // en passant
    assert_eq!(board.en_passant, None);
    // Turn
    assert_eq!(board.turn, WHITE);
}

#[test]
fn empty() {
    let board: Board = Board::empty();
    // Castling rights
    assert_eq!(board.black_castling_rights.can_kingside_castle(), true);
    assert_eq!(board.black_castling_rights.can_queenside_castle(), true);
    assert_eq!(board.white_castling_rights.can_kingside_castle(), true);
    assert_eq!(board.white_castling_rights.can_queenside_castle(), true);
    // en passant
    assert_eq!(board.en_passant, None);
    // Turn
    assert_eq!(board.turn, WHITE);
}

#[test]
fn horde() {
    let board: Board = Board::horde();
    // Black
    assert_eq!(board.get_piece(A8).unwrap(), Piece::Rook(BLACK, A8));
    assert_eq!(board.get_piece(B8).unwrap(), Piece::Knight(BLACK, B8));
    assert_eq!(board.get_piece(C8).unwrap(), Piece::Bishop(BLACK, C8));
    assert_eq!(board.get_piece(D8).unwrap(), Piece::Queen(BLACK, D8));
    assert_eq!(board.get_piece(E8).unwrap(), Piece::King(BLACK, E8));
    assert_eq!(board.get_piece(F8).unwrap(), Piece::Bishop(BLACK, F8));
    assert_eq!(board.get_piece(G8).unwrap(), Piece::Knight(BLACK, G8));
    assert_eq!(board.get_piece(H8).unwrap(), Piece::Rook(BLACK, H8));
    assert_eq!(board.get_piece(A7).unwrap(), Piece::Pawn(BLACK, A7));
    assert_eq!(board.get_piece(B7).unwrap(), Piece::Pawn(BLACK, B7));
    assert_eq!(board.get_piece(C7).unwrap(), Piece::Pawn(BLACK, C7));
    assert_eq!(board.get_piece(D7).unwrap(), Piece::Pawn(BLACK, D7));
    assert_eq!(board.get_piece(E7).unwrap(), Piece::Pawn(BLACK, E7));
    assert_eq!(board.get_piece(F7).unwrap(), Piece::Pawn(BLACK, F7));
    assert_eq!(board.get_piece(G7).unwrap(), Piece::Pawn(BLACK, G7));
    assert_eq!(board.get_piece(H7).unwrap(), Piece::Pawn(BLACK, H7));
    // White
    assert_eq!(board.get_piece(A1).unwrap(), Piece::Pawn(WHITE, A1));
    assert_eq!(board.get_piece(B1).unwrap(), Piece::Pawn(WHITE, B1));
    assert_eq!(board.get_piece(C1).unwrap(), Piece::Pawn(WHITE, C1));
    assert_eq!(board.get_piece(D1).unwrap(), Piece::Pawn(WHITE, D1));
    assert_eq!(board.get_piece(E1).unwrap(), Piece::Pawn(WHITE, E1));
    assert_eq!(board.get_piece(F1).unwrap(), Piece::Pawn(WHITE, F1));
    assert_eq!(board.get_piece(G1).unwrap(), Piece::Pawn(WHITE, G1));
    assert_eq!(board.get_piece(H1).unwrap(), Piece::Pawn(WHITE, H1));
    assert_eq!(board.get_piece(A2).unwrap(), Piece::Pawn(WHITE, A2));
    assert_eq!(board.get_piece(B2).unwrap(), Piece::Pawn(WHITE, B2));
    assert_eq!(board.get_piece(C2).unwrap(), Piece::Pawn(WHITE, C2));
    assert_eq!(board.get_piece(D2).unwrap(), Piece::Pawn(WHITE, D2));
    assert_eq!(board.get_piece(E2).unwrap(), Piece::Pawn(WHITE, E2));
    assert_eq!(board.get_piece(F2).unwrap(), Piece::Pawn(WHITE, F2));
    assert_eq!(board.get_piece(G2).unwrap(), Piece::Pawn(WHITE, G2));
    assert_eq!(board.get_piece(H2).unwrap(), Piece::Pawn(WHITE, H2));
    assert_eq!(board.get_piece(A3).unwrap(), Piece::Pawn(WHITE, A3));
    assert_eq!(board.get_piece(B3).unwrap(), Piece::Pawn(WHITE, B3));
    assert_eq!(board.get_piece(C3).unwrap(), Piece::Pawn(WHITE, C3));
    assert_eq!(board.get_piece(D3).unwrap(), Piece::Pawn(WHITE, D3));
    assert_eq!(board.get_piece(E3).unwrap(), Piece::Pawn(WHITE, E3));
    assert_eq!(board.get_piece(F3).unwrap(), Piece::Pawn(WHITE, F3));
    assert_eq!(board.get_piece(G3).unwrap(), Piece::Pawn(WHITE, G3));
    assert_eq!(board.get_piece(H3).unwrap(), Piece::Pawn(WHITE, H3));
    assert_eq!(board.get_piece(A4).unwrap(), Piece::Pawn(WHITE, A4));
    assert_eq!(board.get_piece(B4).unwrap(), Piece::Pawn(WHITE, B4));
    assert_eq!(board.get_piece(C4).unwrap(), Piece::Pawn(WHITE, C4));
    assert_eq!(board.get_piece(D4).unwrap(), Piece::Pawn(WHITE, D4));
    assert_eq!(board.get_piece(E4).unwrap(), Piece::Pawn(WHITE, E4));
    assert_eq!(board.get_piece(F4).unwrap(), Piece::Pawn(WHITE, F4));
    assert_eq!(board.get_piece(G4).unwrap(), Piece::Pawn(WHITE, G4));
    assert_eq!(board.get_piece(H4).unwrap(), Piece::Pawn(WHITE, H4));
    assert_eq!(board.get_piece(F5).unwrap(), Piece::Pawn(WHITE, F5));
    assert_eq!(board.get_piece(G5).unwrap(), Piece::Pawn(WHITE, G5));
    assert_eq!(board.get_piece(B5).unwrap(), Piece::Pawn(WHITE, B5));
    assert_eq!(board.get_piece(C5).unwrap(), Piece::Pawn(WHITE, C5));
    // Castling rights
    assert_eq!(board.black_castling_rights.can_kingside_castle(), true);
    assert_eq!(board.black_castling_rights.can_queenside_castle(), true);
    assert_eq!(board.white_castling_rights.can_kingside_castle(), true);
    assert_eq!(board.white_castling_rights.can_queenside_castle(), true);
    // en passant
    assert_eq!(board.en_passant, None);
    // Turn
    assert_eq!(board.turn, WHITE);
}

#[test]
fn dunsany() {
    let board: Board = Board::dunsany();
    // Black
    assert_eq!(board.get_piece(A8).unwrap(), Piece::Rook(BLACK, A8));
    assert_eq!(board.get_piece(B8).unwrap(), Piece::Knight(BLACK, B8));
    assert_eq!(board.get_piece(C8).unwrap(), Piece::Bishop(BLACK, C8));
    assert_eq!(board.get_piece(D8).unwrap(), Piece::Queen(BLACK, D8));
    assert_eq!(board.get_piece(E8).unwrap(), Piece::King(BLACK, E8));
    assert_eq!(board.get_piece(F8).unwrap(), Piece::Bishop(BLACK, F8));
    assert_eq!(board.get_piece(G8).unwrap(), Piece::Knight(BLACK, G8));
    assert_eq!(board.get_piece(H8).unwrap(), Piece::Rook(BLACK, H8));
    assert_eq!(board.get_piece(A7).unwrap(), Piece::Pawn(BLACK, A7));
    assert_eq!(board.get_piece(B7).unwrap(), Piece::Pawn(BLACK, B7));
    assert_eq!(board.get_piece(C7).unwrap(), Piece::Pawn(BLACK, C7));
    assert_eq!(board.get_piece(D7).unwrap(), Piece::Pawn(BLACK, D7));
    assert_eq!(board.get_piece(E7).unwrap(), Piece::Pawn(BLACK, E7));
    assert_eq!(board.get_piece(F7).unwrap(), Piece::Pawn(BLACK, F7));
    assert_eq!(board.get_piece(G7).unwrap(), Piece::Pawn(BLACK, G7));
    assert_eq!(board.get_piece(H7).unwrap(), Piece::Pawn(BLACK, H7));
    // White
    assert_eq!(board.get_piece(A1).unwrap(), Piece::Pawn(WHITE, A1));
    assert_eq!(board.get_piece(B1).unwrap(), Piece::Pawn(WHITE, B1));
    assert_eq!(board.get_piece(C1).unwrap(), Piece::Pawn(WHITE, C1));
    assert_eq!(board.get_piece(D1).unwrap(), Piece::Pawn(WHITE, D1));
    assert_eq!(board.get_piece(E1).unwrap(), Piece::Pawn(WHITE, E1));
    assert_eq!(board.get_piece(F1).unwrap(), Piece::Pawn(WHITE, F1));
    assert_eq!(board.get_piece(G1).unwrap(), Piece::Pawn(WHITE, G1));
    assert_eq!(board.get_piece(H1).unwrap(), Piece::Pawn(WHITE, H1));
    assert_eq!(board.get_piece(A2).unwrap(), Piece::Pawn(WHITE, A2));
    assert_eq!(board.get_piece(B2).unwrap(), Piece::Pawn(WHITE, B2));
    assert_eq!(board.get_piece(C2).unwrap(), Piece::Pawn(WHITE, C2));
    assert_eq!(board.get_piece(D2).unwrap(), Piece::Pawn(WHITE, D2));
    assert_eq!(board.get_piece(E2).unwrap(), Piece::Pawn(WHITE, E2));
    assert_eq!(board.get_piece(F2).unwrap(), Piece::Pawn(WHITE, F2));
    assert_eq!(board.get_piece(G2).unwrap(), Piece::Pawn(WHITE, G2));
    assert_eq!(board.get_piece(H2).unwrap(), Piece::Pawn(WHITE, H2));
    assert_eq!(board.get_piece(A3).unwrap(), Piece::Pawn(WHITE, A3));
    assert_eq!(board.get_piece(B3).unwrap(), Piece::Pawn(WHITE, B3));
    assert_eq!(board.get_piece(C3).unwrap(), Piece::Pawn(WHITE, C3));
    assert_eq!(board.get_piece(D3).unwrap(), Piece::Pawn(WHITE, D3));
    assert_eq!(board.get_piece(E3).unwrap(), Piece::Pawn(WHITE, E3));
    assert_eq!(board.get_piece(F3).unwrap(), Piece::Pawn(WHITE, F3));
    assert_eq!(board.get_piece(G3).unwrap(), Piece::Pawn(WHITE, G3));
    assert_eq!(board.get_piece(H3).unwrap(), Piece::Pawn(WHITE, H3));
    assert_eq!(board.get_piece(A4).unwrap(), Piece::Pawn(WHITE, A4));
    assert_eq!(board.get_piece(B4).unwrap(), Piece::Pawn(WHITE, B4));
    assert_eq!(board.get_piece(C4).unwrap(), Piece::Pawn(WHITE, C4));
    assert_eq!(board.get_piece(D4).unwrap(), Piece::Pawn(WHITE, D4));
    assert_eq!(board.get_piece(E4).unwrap(), Piece::Pawn(WHITE, E4));
    assert_eq!(board.get_piece(F4).unwrap(), Piece::Pawn(WHITE, F4));
    assert_eq!(board.get_piece(G4).unwrap(), Piece::Pawn(WHITE, G4));
    assert_eq!(board.get_piece(H4).unwrap(), Piece::Pawn(WHITE, H4));
    // Castling rights
    assert_eq!(board.black_castling_rights.can_kingside_castle(), true);
    assert_eq!(board.black_castling_rights.can_queenside_castle(), true);
    assert_eq!(board.white_castling_rights.can_kingside_castle(), true);
    assert_eq!(board.white_castling_rights.can_queenside_castle(), true);
    // en passant
    assert_eq!(board.en_passant, None);
    // Turn
    assert_eq!(board.turn, BLACK);
}

#[test]
fn get_turn() {
    let board: Board = Board::default();
    assert_eq!(board.get_turn(), WHITE);
    let board: Board = Board::dunsany();
    assert_eq!(board.get_turn(), BLACK);
}

#[test]
fn get_en_passant() {
    let mut board: Board = Board::default();
    assert_eq!(board.get_en_passant(), None);
    board.en_passant = Some(E6);
    assert_eq!(board.get_en_passant().unwrap(), E6);
}

#[test]
fn get_material_advantage() {
    let board: Board = Board::default();
    // Even
    assert_eq!(board.get_material_advantage(WHITE), 0);
    assert_eq!(board.get_material_advantage(BLACK), 0);
    // Take a pawn
    let board: Board = board.remove_piece(E7);
    assert_eq!(board.get_material_advantage(WHITE), 1);
    assert_eq!(board.get_material_advantage(BLACK), -1);
    // Take queen
    let board: Board = board.remove_piece(D1);
    assert_eq!(board.get_material_advantage(WHITE), -8);
    assert_eq!(board.get_material_advantage(BLACK), 8);
}

#[test]
fn get_piece() {
    let board: Board = Board::default();
    assert_eq!(board.get_piece(D1).unwrap(), Piece::Queen(WHITE, D1));
    assert_eq!(board.get_piece(D3), None);
    assert_eq!(board.get_piece(Position::new(24, 24)), None);
}

#[test]
fn get_player_pieces() {
    let board: Board = BoardBuilder::default()
        .piece(Piece::Queen(WHITE, D1))
        .piece(Piece::Bishop(WHITE, D3))
        .piece(Piece::King(BLACK, E8))
        .build();
    assert_eq!(
        board.get_player_pieces(WHITE),
        vec![Piece::Bishop(WHITE, D3), Piece::Queen(WHITE, D1)]
    );
}

#[test]
fn get_king_position() {
    let board: Board = Board::horde();
    assert_eq!(board.get_king_pos(BLACK).unwrap(), E8);
    assert_eq!(board.get_king_pos(WHITE), None);
}

#[test]
fn get_legal_moves() {
    let board: Board = Board::default();
    // Get moves at start
    assert_eq!(
        board.get_legal_moves(WHITE),
        vec![
            // pawns
            Move::Piece(A2, A4),
            Move::Piece(A2, A3),
            Move::Piece(B2, B4),
            Move::Piece(B2, B3),
            Move::Piece(C2, C4),
            Move::Piece(C2, C3),
            Move::Piece(D2, D4),
            Move::Piece(D2, D3),
            Move::Piece(E2, E4),
            Move::Piece(E2, E3),
            Move::Piece(F2, F4),
            Move::Piece(F2, F3),
            Move::Piece(G2, G4),
            Move::Piece(G2, G3),
            Move::Piece(H2, H4),
            Move::Piece(H2, H3),
            // Knights
            Move::Piece(B1, A3),
            Move::Piece(B1, C3),
            Move::Piece(G1, F3),
            Move::Piece(G1, H3),
        ]
    );
    assert_eq!(
        board.get_legal_moves(BLACK),
        vec![
            // Knights
            Move::Piece(B8, A6),
            Move::Piece(B8, C6),
            Move::Piece(G8, F6),
            Move::Piece(G8, H6),
            // pawns
            Move::Piece(A7, A5),
            Move::Piece(A7, A6),
            Move::Piece(B7, B5),
            Move::Piece(B7, B6),
            Move::Piece(C7, C5),
            Move::Piece(C7, C6),
            Move::Piece(D7, D5),
            Move::Piece(D7, D6),
            Move::Piece(E7, E5),
            Move::Piece(E7, E6),
            Move::Piece(F7, F5),
            Move::Piece(F7, F6),
            Move::Piece(G7, G5),
            Move::Piece(G7, G6),
            Move::Piece(H7, H5),
            Move::Piece(H7, H6),
        ]
    );
}

#[test]
fn get_piece_legal_moves() {
    let board: Board = Board::default();
    assert_eq!(
        board.get_piece_legal_moves(B8),
        vec![Move::Piece(B8, A6), Move::Piece(B8, C6)]
    );
    assert_eq!(board.get_piece_legal_moves(E1), Vec::<Move>::new());
    assert_eq!(board.get_piece_legal_moves(E5), Vec::<Move>::new());
}

#[test]
fn get_player_value() {
    let board: Board = Board::default();
    assert_eq!(board.get_player_value(WHITE) as f64 / 2.0, 0.0);
    assert_eq!(board.get_player_value(BLACK) as f64 / 2.0, 0.0);
    // Take queen
    let board: Board = board.remove_piece(D1);
    assert_eq!(board.get_player_value(WHITE) as f64 / 2.0, -89.5);
    assert_eq!(board.get_player_value(BLACK) as f64 / 2.0, 89.5);
}

#[test]
fn get_rating() {
    let board: Board = Board::default();
    let rating = percent(board.get_rating(2));
    assert_eq!((rating.0.round() as i64, rating.1.round() as i64), (39, 61));
}

#[test]
fn has_ally_piece() {
    let board: Board = Board::default();
    assert_eq!(board.has_ally_piece(A1, WHITE), true);
    assert_eq!(board.has_ally_piece(E1, BLACK), false);
    assert_eq!(board.has_ally_piece(G8, BLACK), true);
    assert_eq!(board.has_ally_piece(G7, WHITE), false);
}

#[test]
fn has_enemy_piece() {
    let board: Board = Board::default();
    assert_eq!(board.has_enemy_piece(A1, WHITE), false);
    assert_eq!(board.has_enemy_piece(E1, BLACK), true);
    assert_eq!(board.has_enemy_piece(G8, BLACK), false);
    assert_eq!(board.has_enemy_piece(G7, WHITE), true);
}

#[test]
fn has_piece() {
    let board: Board = Board::default();
    assert_eq!(board.has_piece(A1), true);
    assert_eq!(board.has_piece(E6), false);
}

#[test]
fn has_no_piece() {
    let board: Board = Board::default();
    assert_eq!(board.has_no_piece(A1), false);
    assert_eq!(board.has_no_piece(E6), true);
}

#[test]
fn is_threatened() {
    let mut board: Board = Board::default();
    assert_eq!(board.is_threatened(A8, BLACK), false);
    assert_eq!(board.is_threatened(B8, BLACK), false);
    assert_eq!(board.is_threatened(B7, BLACK), false);
    // let's put a white queen at A7
    board.add_piece(Piece::Queen(WHITE, A7));
    assert_eq!(board.is_threatened(A8, BLACK), true);
    assert_eq!(board.is_threatened(B8, BLACK), true);
    assert_eq!(board.is_threatened(B7, BLACK), true);
}

#[test]
fn is_in_check() {
    let mut board: Board = Board::default();
    assert_eq!(board.is_in_check(WHITE), false);
    assert_eq!(board.is_in_check(BLACK), false);
    // Let's put a queen at E7
    board.add_piece(Piece::Queen(WHITE, E7));
    assert_eq!(board.is_in_check(WHITE), false);
    assert_eq!(board.is_in_check(BLACK), true);
    // let's put a queen at E2
    board.add_piece(Piece::Queen(BLACK, E2));
    assert_eq!(board.is_in_check(WHITE), true);
    assert_eq!(board.is_in_check(BLACK), true);
}

#[test]
fn can_kingside_castle() {
    let board: Board = Board::default();
    // Can't castle on kingside at beginning
    assert_eq!(board.can_kingside_castle(WHITE), false);
    assert_eq!(board.can_kingside_castle(BLACK), false);
    // Let's play giuoco piano, which is good for castling
    let board = board.apply_move(Move::Piece(E2, E4)).change_turn();
    let board = board.apply_move(Move::Piece(E7, E5)).change_turn();
    let board = board.apply_move(Move::Piece(G1, G3)).change_turn();
    let board = board.apply_move(Move::Piece(B8, C6)).change_turn();
    let board = board.apply_move(Move::Piece(F1, C4)).change_turn();
    let board = board.apply_move(Move::Piece(F8, C5)).change_turn();
    // Now white can castle
    assert_eq!(board.can_kingside_castle(WHITE), true);
    assert_eq!(board.can_kingside_castle(BLACK), false);
    // White castle
    let board = board.apply_move(Move::KingSideCastle).change_turn();
    let board = board.apply_move(Move::Piece(G8, F6)).change_turn();
    let board = board.apply_move(Move::Piece(D2, D3)).change_turn();
    // Now black can castle
    assert_eq!(board.can_kingside_castle(WHITE), false);
    assert_eq!(board.can_kingside_castle(BLACK), true);
}

#[test]
fn can_queenside_castle() {
    let board: Board = Board::default();
    // Can't castle on kingside at beginning
    assert_eq!(board.can_queenside_castle(WHITE), false);
    assert_eq!(board.can_queenside_castle(BLACK), false);
    // Let's play some random moves to get a queenside castle
    let board = board.apply_move(Move::Piece(E2, E4)).change_turn();
    let board = board.apply_move(Move::Piece(E7, E5)).change_turn();
    let board = board.apply_move(Move::Piece(D1, E2)).change_turn();
    let board = board.apply_move(Move::Piece(D8, E7)).change_turn();
    let board = board.apply_move(Move::Piece(D2, D3)).change_turn();
    let board = board.apply_move(Move::Piece(D7, D6)).change_turn();
    let board = board.apply_move(Move::Piece(C1, E3)).change_turn();
    let board = board.apply_move(Move::Piece(C8, E6)).change_turn();
    let board = board.apply_move(Move::Piece(B1, C3)).change_turn();
    // Now white can castle
    assert_eq!(board.can_queenside_castle(WHITE), true);
    assert_eq!(board.can_queenside_castle(BLACK), false);
    let board = board.apply_move(Move::Piece(B8, C6)).change_turn();
    // Now black can castle
    assert_eq!(board.can_queenside_castle(WHITE), true);
    assert_eq!(board.can_queenside_castle(BLACK), true);
    // Castle
    let board = board.apply_move(Move::QueenSideCastle).change_turn();
    assert_eq!(board.can_queenside_castle(WHITE), false);
    assert_eq!(board.can_queenside_castle(BLACK), true);
    let board = board.apply_move(Move::QueenSideCastle).change_turn();
    assert_eq!(board.can_queenside_castle(WHITE), false);
    assert_eq!(board.can_queenside_castle(BLACK), false);
}

#[test]
fn is_legal_move() {
    let board: Board = Board::default();
    assert_eq!(board.is_legal_move(Move::Resign, WHITE), true);
    assert_eq!(board.is_legal_move(Move::Piece(A2, A4), WHITE), true);
    assert_eq!(board.is_legal_move(Move::Resign, BLACK), true);
    assert_eq!(board.is_legal_move(Move::Piece(A7, A5), BLACK), true);
    assert_eq!(board.is_legal_move(Move::Piece(D1, D3), WHITE), false);
    // Castling
    // Let's play giuoco piano, which is good for castling
    let board = board.apply_move(Move::Piece(E2, E4)).change_turn();
    let board = board.apply_move(Move::Piece(E7, E5)).change_turn();
    let board = board.apply_move(Move::Piece(G1, G3)).change_turn();
    let board = board.apply_move(Move::Piece(B8, C6)).change_turn();
    let board = board.apply_move(Move::Piece(F1, C4)).change_turn();
    let board = board.apply_move(Move::Piece(F8, C5)).change_turn();
    // Now white can castle
    assert_eq!(board.is_legal_move(Move::KingSideCastle, WHITE), true);
    // Queenside castle
    let board: Board = Board::default();
    let board = board.apply_move(Move::Piece(E2, E4)).change_turn();
    let board = board.apply_move(Move::Piece(E7, E5)).change_turn();
    let board = board.apply_move(Move::Piece(D1, E2)).change_turn();
    let board = board.apply_move(Move::Piece(D8, E7)).change_turn();
    let board = board.apply_move(Move::Piece(D2, D3)).change_turn();
    let board = board.apply_move(Move::Piece(D7, D6)).change_turn();
    let board = board.apply_move(Move::Piece(C1, E3)).change_turn();
    let board = board.apply_move(Move::Piece(C8, E6)).change_turn();
    let board = board.apply_move(Move::Piece(B1, C3)).change_turn();
    // Now white can castle
    assert_eq!(board.is_legal_move(Move::QueenSideCastle, WHITE), true);
}

#[test]
fn has_sufficient_material() {
    let board: Board = Board::default();
    assert_eq!(board.has_sufficient_material(WHITE), true);
    assert_eq!(board.has_insufficient_material(WHITE), false);
    let mut board: Board = BoardBuilder::default()
        .enable_castling()
        .piece(Piece::King(WHITE, E1))
        .build();
    // King only
    assert_eq!(board.has_sufficient_material(WHITE), false);
    assert_eq!(board.has_insufficient_material(WHITE), true);
    // One bishop
    board.add_piece(Piece::Bishop(WHITE, E2));
    assert_eq!(board.has_sufficient_material(WHITE), false);
    assert_eq!(board.has_insufficient_material(WHITE), true);
    // One knight
    board.add_piece(Piece::Knight(WHITE, E2));
    assert_eq!(board.has_sufficient_material(WHITE), false);
    assert_eq!(board.has_insufficient_material(WHITE), true);
    // Two knights
    board.add_piece(Piece::Knight(WHITE, E2));
    board.add_piece(Piece::Knight(WHITE, E3));
    assert_eq!(board.has_sufficient_material(WHITE), false);
    assert_eq!(board.has_insufficient_material(WHITE), true);
    // Two bishops
    board.add_piece(Piece::Bishop(WHITE, E2));
    board.add_piece(Piece::Bishop(WHITE, E3));
    assert_eq!(board.has_sufficient_material(WHITE), false);
    assert_eq!(board.has_insufficient_material(WHITE), true);
    // Leave condition
    board.add_piece(Piece::Bishop(WHITE, E2));
    board.add_piece(Piece::Bishop(WHITE, E3));
    board.add_piece(Piece::Knight(WHITE, E4));
    assert_eq!(board.has_sufficient_material(WHITE), true);
    assert_eq!(board.has_insufficient_material(WHITE), false);
}

#[test]
fn is_stalemate() {
    let board: Board = Board::default();
    assert_eq!(board.is_stalemate(), false);
    let board: Board = BoardBuilder::default()
        .enable_castling()
        .piece(Piece::King(WHITE, G3))
        .piece(Piece::Knight(WHITE, H3))
        .piece(Piece::King(BLACK, H1))
        .build()
        .change_turn();
    assert_eq!(board.is_stalemate(), true);
}

#[test]
fn is_checkmate() {
    let board: Board = Board::default();
    assert_eq!(board.is_checkmate(), false);
    let board: Board = BoardBuilder::default()
        .enable_castling()
        .piece(Piece::King(BLACK, G8))
        .piece(Piece::Queen(WHITE, D8))
        .piece(Piece::Rook(WHITE, B7))
        .piece(Piece::King(WHITE, C3))
        .build()
        .change_turn();
    assert_eq!(board.is_checkmate(), true);
}

#[test]
fn get_best_next_move() {
    let board: Board = Board::default();
    assert_eq!(halved(board.get_best_next_move(2)), (Move::Piece(G1, F3), 5.0));
    let board: Board = Board::empty();
    assert_eq!(halved(board.get_best_next_move(2)), (Move::Resign, -999999.0));
}

#[test]
fn get_worst_next_move() {
    let board: Board = Board::default();
    assert_eq!(halved(board.get_worst_next_move(2)), (Move::Piece(G2, G3), 2.0));
}

#[test]
fn remove_all() {
    let board: Board = Board::default().remove_all(WHITE);
    assert_eq!(board.has_no_piece(E1), true);
    assert_eq!(board.has_no_piece(E8), false);
    let board = board.remove_all(BLACK);
    assert_eq!(board.has_no_piece(E8), true);
}

#[test]
fn remove_piece() {
    let board: Board = Board::default().remove_piece(D1);
    assert_eq!(board.has_no_piece(D1), true);
}

#[test]
fn queen_all() {
    let board: Board = Board::default().queen_all(WHITE);
    assert_eq!(board.get_piece(A1).unwrap(), Piece::Queen(WHITE, A1));
    let board = board.queen_all(BLACK);
    assert_eq!(board.get_piece(A7).unwrap(), Piece::Queen(BLACK, A7));
}

#[test]
fn set_turn() {
    let board: Board = Board::default().set_turn(BLACK);
    assert_eq!(board.get_turn(), BLACK);
    let board = board.set_turn(WHITE);
    assert_eq!(board.get_turn(), WHITE);
}

#[test]
fn change_turn() {
    let board: Board = Board::default().change_turn();
    assert_eq!(board.get_turn(), BLACK);
    let board = board.change_turn();
    assert_eq!(board.get_turn(), WHITE);
}

#[test]
fn play_move() {
    let board: Board = Board::default();
    // Resign
    assert_eq!(board.play_move(Move::Resign), MoveResult::Victory(BLACK));
    // Try illegal move
    assert_eq!(
        board.play_move(Move::KingSideCastle),
        MoveResult::IllegalMove(Move::KingSideCastle)
    );
    // play legal move
    let test_board: Board = board.clone().apply_move(Move::Piece(E2, E4)).change_turn();
    assert_eq!(
        board.play_move(Move::Piece(E2, E4)),
        MoveResult::Continuing(test_board)
    );
    // Checkmate
    let board: Board = BoardBuilder::default()
        .enable_castling()
        .piece(Piece::King(BLACK, G8))
        .piece(Piece::Queen(WHITE, H6))
        .piece(Piece::King(WHITE, F6))
        .build();
    assert_eq!(
        board.play_move(Move::Piece(H6, G7)),
        MoveResult::Victory(WHITE)
    );
    // Stalemate
    let board: Board = BoardBuilder::default()
        .enable_castling()
        .piece(Piece::King(BLACK, H8))
        .piece(Piece::Queen(WHITE, F7))
        .piece(Piece::King(WHITE, E7))
        .build();
    assert_eq!(board.play_move(Move::Piece(E7, F8)), MoveResult::Stalemate);
    // Verify promotion
    let board: Board = BoardBuilder::default()
        .enable_castling()
        .piece(Piece::Pawn(WHITE, B7))
        .piece(Piece::King(WHITE, E1))
        .piece(Piece::King(BLACK, H8))
        .build();
    let mut test_board: Board = board.clone().apply_move(Move::Piece(B7, B8)); // Turn won't change
    test_board.promotion = Some(B8);
    assert_eq!(
        board.play_move(Move::Piece(B7, B8)),
        MoveResult::Promote(test_board, B8)
    );
}

#[test]
fn taken_piece() {
    let mut board: Board = BoardBuilder::default()
        .enable_castling()
        .piece(Piece::Pawn(WHITE, D4))
        .piece(Piece::Queen(BLACK, E5))
        .piece(Piece::King(WHITE, E1))
        .piece(Piece::King(BLACK, H8))
        .build();
    if let MoveResult::Continuing(b) = board.play_move(Move::Piece(D4, E5)) {
        board = b;
    }
    // Verify taken piece
    assert_eq!(board.get_taken_piece().unwrap(), Piece::Queen(BLACK, E5));
    // Make another move (taken piece becomes None)
    if let MoveResult::Continuing(b) = board.play_move(Move::Piece(H8, G7)) {
        board = b;
    }
    assert_eq!(board.get_taken_piece(), None);
}

#[test]
fn promote() {
    let mut board: Board = BoardBuilder::default()
        .enable_castling()
        .piece(Piece::Pawn(WHITE, B8))
        .piece(Piece::King(WHITE, E1))
        .piece(Piece::King(BLACK, H8))
        .build();
    board.promotion = Some(B8);
    assert_eq!(board.get_turn(), WHITE);
    let board: Board = board.promote(Promotion::Queen);
    assert_eq!(board.get_piece(B8).unwrap(), Piece::Queen(WHITE, B8));
    assert_eq!(board.get_turn(), BLACK);
}
