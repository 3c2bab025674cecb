use harmon::{
    Board, BoardBuilder, Color, Move, MoveResult, Piece, Position, Promotion, BLACK, WHITE,
};

const A1: Position = Position { row: 0, col: 0 };
const A8: Position = Position { row: 7, col: 0 };
const B7: Position = Position { row: 6, col: 1 };
const B8: Position = Position { row: 7, col: 1 };
const C1: Position = Position { row: 0, col: 2 };
const C8: Position = Position { row: 7, col: 2 };
const D1: Position = Position { row: 0, col: 3 };
const D5: Position = Position { row: 4, col: 3 };
const E1: Position = Position { row: 0, col: 4 };
const E2: Position = Position { row: 1, col: 4 };
const E3: Position = Position { row: 2, col: 4 };
const E4: Position = Position { row: 3, col: 4 };
const E5: Position = Position { row: 4, col: 4 };
const E6: Position = Position { row: 5, col: 4 };
const E8: Position = Position { row: 7, col: 4 };
const F5: Position = Position { row: 4, col: 5 };
const F6: Position = Position { row: 5, col: 5 };
const F7: Position = Position { row: 6, col: 5 };
const G1: Position = Position { row: 0, col: 6 };
const H1: Position = Position { row: 0, col: 7 };
const H5: Position = Position { row: 4, col: 7 };
const H6: Position = Position { row: 5, col: 7 };
const H7: Position = Position { row: 6, col: 7 };
const H8: Position = Position { row: 7, col: 7 };
const A7: Position = Position { row: 6, col: 0 };
const A6: Position = Position { row: 5, col: 0 };

/// Plays a move that has to go through and hands back the board after it.
fn play(board: Board, m: Move) -> Board {
    match board.play_move(m) {
        MoveResult::Continuing(next) => next,
        other => panic!("{:?} did not go on: {:?}", m, other),
    }
}

/// A middle game position reached by legal play.
fn middle_game() -> Board {
    let mut board = Board::default();
    for m in [
        Move::Piece(E2, E4),
        Move::Piece(Position { row: 6, col: 4 }, E5),
        Move::Piece(G1, Position { row: 2, col: 5 }),
        Move::Piece(B8, Position { row: 5, col: 2 }),
        Move::Piece(Position { row: 0, col: 5 }, Position { row: 3, col: 2 }),
        Move::Piece(Position { row: 7, col: 5 }, Position { row: 4, col: 2 }),
    ] {
        board = play(board, m);
    }
    board
}

#[test]
fn every_board_of_the_library_is_valid() {
    assert!(Board::empty().is_valid());
    assert!(Board::default().is_valid());
    assert!(Board::horde().is_valid());
    assert!(Board::dunsany().is_valid());
    assert!(middle_game().is_valid());
    let mut broken = Board::default();
    broken.en_passant = Some(Position::new(8, 0));
    assert!(!broken.is_valid());
    let mut misplaced = Board::empty();
    misplaced.squares[0].piece = Some(Piece::King(WHITE, E1));
    assert!(!misplaced.is_valid());
}

#[test]
fn no_legal_move_leaves_the_mover_in_check() {
    let pinned: Board = BoardBuilder::default()
        .piece(Piece::King(WHITE, E1))
        .piece(Piece::Rook(WHITE, E2))
        .piece(Piece::Rook(BLACK, E8))
        .piece(Piece::King(BLACK, A8))
        .piece(Piece::Queen(BLACK, H5))
        .build();
    for board in [Board::default(), middle_game(), pinned] {
        for color in [WHITE, BLACK] {
            let board = board.set_turn(color);
            for m in board.get_legal_moves(color) {
                assert!(board.is_legal_move(m, color));
                assert!(
                    !board.apply_move(m).is_in_check(color),
                    "{:?} leaves {:?} in check",
                    m,
                    color
                );
            }
        }
    }
    // The pinned rook may move along the file, and not off it.
    assert!(pinned.is_legal_move(Move::Piece(E2, E4), WHITE));
    assert!(!pinned.is_legal_move(Move::Piece(E2, Position { row: 1, col: 0 }), WHITE));
}

#[test]
fn no_castling_onto_a_threatened_square() {
    // Black's rook looks down the c file, on which the white king would
    // land.
    let board: Board = BoardBuilder::default()
        .enable_castling()
        .piece(Piece::King(WHITE, E1))
        .piece(Piece::Rook(WHITE, A1))
        .piece(Piece::Rook(BLACK, C8))
        .piece(Piece::King(BLACK, H8))
        .build();
    assert!(board.is_threatened(C1, WHITE));
    assert!(!board.is_threatened(D1, WHITE));
    assert!(!board.can_queenside_castle(WHITE));
    assert!(!board.is_legal_move(Move::QueenSideCastle, WHITE));
    assert!(!board.get_legal_moves(WHITE).contains(&Move::QueenSideCastle));
    assert_eq!(
        board.play_move(Move::QueenSideCastle),
        MoveResult::IllegalMove(Move::QueenSideCastle)
    );
    // With the c file closed the king lands safely.
    let closed = board.remove_piece(C8);
    assert!(closed.is_legal_move(Move::QueenSideCastle, WHITE));
    assert!(closed.get_legal_moves(WHITE).contains(&Move::QueenSideCastle));
    let after = closed.apply_move(Move::QueenSideCastle);
    assert_eq!(after.get_piece(C1), Some(Piece::King(WHITE, C1)));
    assert_eq!(after.get_piece(D1), Some(Piece::Rook(WHITE, D1)));
    assert_eq!(after.get_king_pos(WHITE), Some(C1));
    assert!(!after.is_in_check(WHITE));
    // A rook on the b file threatens neither d1 nor c1.
    let beside = BoardBuilder::from(closed)
        .piece(Piece::Rook(BLACK, B8))
        .build();
    assert!(beside.can_queenside_castle(WHITE));
}

#[test]
fn castling_does_not_ask_where_the_king_stands() {
    // The rook on its square, the right, and free and safe squares make
    // castling legal wherever the king stands.
    let strayed: Board = BoardBuilder::default()
        .enable_castling()
        .piece(Piece::King(WHITE, E2))
        .piece(Piece::Rook(WHITE, H1))
        .piece(Piece::King(BLACK, E8))
        .build();
    assert!(!strayed.king_at_start(WHITE));
    assert!(strayed.can_kingside_castle(WHITE));
    assert!(strayed.is_legal_move(Move::KingSideCastle, WHITE));
    assert!(strayed.get_legal_moves(WHITE).contains(&Move::KingSideCastle));
    // The king goes to the g file, the rook to the right of where the king
    // stood.
    let after = strayed.apply_move(Move::KingSideCastle);
    assert_eq!(after.get_piece(G1), Some(Piece::King(WHITE, G1)));
    assert_eq!(
        after.get_piece(Position { row: 1, col: 5 }),
        Some(Piece::Rook(WHITE, Position { row: 1, col: 5 }))
    );
    assert_eq!(after.get_piece(E2), None);
    assert_eq!(after.get_piece(H1), None);
    // Without a king the conditions hold too, but no king lists the move,
    // and to play it changes nothing on the squares.
    let kingless: Board = BoardBuilder::default()
        .enable_castling()
        .piece(Piece::Rook(WHITE, H1))
        .piece(Piece::Rook(WHITE, A1))
        .build();
    assert!(kingless.can_kingside_castle(WHITE));
    assert!(kingless.can_queenside_castle(WHITE));
    assert!(kingless.get_legal_moves(WHITE).iter().all(|m| matches!(m, Move::Piece(_, _))));
    assert_eq!(kingless.apply_move(Move::KingSideCastle), kingless);
    // A king on its starting square is safe after it has castled.
    let home: Board = BoardBuilder::default()
        .enable_castling()
        .piece(Piece::King(WHITE, E1))
        .piece(Piece::Rook(WHITE, H1))
        .piece(Piece::Rook(WHITE, A1))
        .piece(Piece::King(BLACK, E8))
        .piece(Piece::Queen(BLACK, Position { row: 7, col: 0 }))
        .build();
    assert!(home.king_at_start(WHITE));
    for m in home.get_legal_moves(WHITE) {
        assert!(!home.apply_move(m).is_in_check(WHITE), "{:?}", m);
    }
}

#[test]
fn kingside_castling_lands_on_a_safe_square() {
    let board = middle_game();
    assert!(board.is_legal_move(Move::KingSideCastle, WHITE));
    let after = board.apply_move(Move::KingSideCastle);
    assert_eq!(after.get_piece(G1), Some(Piece::King(WHITE, G1)));
    assert_eq!(
        after.get_piece(Position { row: 0, col: 5 }),
        Some(Piece::Rook(WHITE, Position { row: 0, col: 5 }))
    );
    assert_eq!(after.get_piece(E1), None);
    assert_eq!(after.get_piece(H1), None);
    assert_eq!(after.get_king_pos(WHITE), Some(G1));
    assert!(!after.is_threatened(G1, WHITE));
    assert!(!after.is_in_check(WHITE));
    assert!(!after.white_castling_rights.can_kingside_castle());
    assert!(!after.white_castling_rights.can_queenside_castle());
    assert!(after.black_castling_rights.can_kingside_castle());
}

#[test]
fn castling_is_gated() {
    // Blocked by the own pieces at the start.
    let board = Board::default();
    assert!(!board.can_kingside_castle(WHITE));
    assert!(!board.can_queenside_castle(WHITE));
    // Free squares, no threat: allowed.
    let open: Board = BoardBuilder::default()
        .enable_castling()
        .piece(Piece::King(WHITE, E1))
        .piece(Piece::Rook(WHITE, H1))
        .piece(Piece::Rook(WHITE, A1))
        .piece(Piece::King(BLACK, E8))
        .build();
    assert!(open.can_kingside_castle(WHITE));
    assert!(open.can_queenside_castle(WHITE));
    // Without the right: refused.
    let mut no_right = open;
    no_right.white_castling_rights.disable_kingside();
    assert!(!no_right.can_kingside_castle(WHITE));
    assert!(no_right.can_queenside_castle(WHITE));
    // A square that the king passes is threatened: refused.
    let crossed = BoardBuilder::from(open)
        .piece(Piece::Rook(BLACK, Position { row: 7, col: 5 }))
        .build();
    assert!(!crossed.can_kingside_castle(WHITE));
    assert!(crossed.can_queenside_castle(WHITE));
    // The king is in check: refused on both sides.
    let checked = BoardBuilder::from(open)
        .piece(Piece::Rook(BLACK, E5))
        .build();
    assert!(!checked.can_kingside_castle(WHITE));
    assert!(!checked.can_queenside_castle(WHITE));
    // Not the rook on its square: refused.
    let no_rook = BoardBuilder::from(open)
        .piece(Piece::Bishop(WHITE, H1))
        .build();
    assert!(!no_rook.can_kingside_castle(WHITE));
    // A rook that has moved gives up the right of its side only.
    let moved = open.apply_move(Move::Piece(H1, Position { row: 0, col: 6 }));
    assert!(!moved.white_castling_rights.can_kingside_castle());
    assert!(moved.white_castling_rights.can_queenside_castle());
}

#[test]
fn to_resign_changes_nothing_on_the_board() {
    let board = middle_game();
    let after = board.apply_move(Move::Resign);
    assert_eq!(after, board);
    for row in 0..8 {
        for col in 0..8 {
            let pos = Position::new(row, col);
            assert_eq!(after.get_piece(pos), board.get_piece(pos));
        }
    }
    assert_eq!(board.play_move(Move::Resign), MoveResult::Victory(BLACK));
    assert_eq!(
        board.set_turn(BLACK).play_move(Move::Resign),
        MoveResult::Victory(WHITE)
    );
    assert!(board.is_legal_move(Move::Resign, WHITE));
}

#[test]
fn a_pawn_pushes_twice_from_its_starting_rank_only() {
    let board = Board::default();
    assert_eq!(
        board.get_piece_legal_moves(E2),
        vec![Move::Piece(E2, E4), Move::Piece(E2, E3)]
    );
    let advanced = play(board, Move::Piece(E2, E3));
    assert_eq!(
        advanced.get_piece_legal_moves(E3),
        vec![Move::Piece(E3, E4)]
    );
    // A piece on the second square stops the double push only.
    let blocked = BoardBuilder::from(Board::default())
        .piece(Piece::Knight(BLACK, E4))
        .build();
    assert_eq!(
        blocked.get_piece_legal_moves(E2),
        vec![Move::Piece(E2, E3)]
    );
    // A piece on the first square stops both.
    let stuck = BoardBuilder::from(Board::default())
        .piece(Piece::Knight(BLACK, E3))
        .build();
    assert_eq!(stuck.get_piece_legal_moves(E2), Vec::<Move>::new());
    // Black pawns go down.
    assert_eq!(
        Board::default().get_piece_legal_moves(A7),
        vec![Move::Piece(A7, Position { row: 4, col: 0 }), Move::Piece(A7, A6)]
    );
}

#[test]
fn en_passant_lasts_one_move() {
    let mut board = Board::default();
    board = play(board, Move::Piece(E2, E4));
    // The double push leaves the square behind the pawn.
    assert_eq!(board.get_en_passant(), Some(E3));
    board = play(board, Move::Piece(H7, H5));
    assert_eq!(board.get_en_passant(), Some(H6));
    board = play(board, Move::Piece(E4, E5));
    assert_eq!(board.get_en_passant(), None);
    board = play(board, Move::Piece(F7, F5));
    assert_eq!(board.get_en_passant(), Some(F6));
    assert!(board.get_piece_legal_moves(E5).contains(&Move::Piece(E5, F6)));
    assert!(board.is_legal_move(Move::Piece(E5, F6), WHITE));
    // One ply without the capture, and it is gone.
    let later = play(play(board, Move::Piece(Position { row: 1, col: 0 }, Position { row: 2, col: 0 })), Move::Piece(A7, A6));
    assert_eq!(later.get_en_passant(), None);
    assert!(!later.get_piece_legal_moves(E5).contains(&Move::Piece(E5, F6)));
    assert!(!later.is_legal_move(Move::Piece(E5, F6), WHITE));
    // The capture takes the pawn that passed, which is not where the
    // capturing pawn lands.
    let captured = play(board, Move::Piece(E5, F6));
    assert_eq!(captured.get_piece(F6), Some(Piece::Pawn(WHITE, F6)));
    assert_eq!(captured.get_piece(F5), None);
    assert_eq!(captured.get_piece(E5), None);
    assert_eq!(captured.get_en_passant(), None);
}

#[test]
fn a_pawn_moves_to_its_squares_only() {
    // With an en passant square beside it a pawn still goes nowhere else.
    let mut board = Board::default();
    board = play(board, Move::Piece(E2, E4));
    board = play(board, Move::Piece(H7, H5));
    board = play(board, Move::Piece(E4, E5));
    board = play(board, Move::Piece(Position { row: 6, col: 3 }, D5));
    assert_eq!(board.get_en_passant(), Some(Position { row: 5, col: 3 }));
    assert!(board.is_legal_move(Move::Piece(E5, Position { row: 5, col: 3 }), WHITE));
    assert!(board.is_legal_move(Move::Piece(E5, E6), WHITE));
    assert!(!board.is_legal_move(Move::Piece(E5, F6), WHITE));
    assert!(!board.is_legal_move(Move::Piece(E5, Position { row: 3, col: 0 }), WHITE));
    assert_eq!(
        board.play_move(Move::Piece(E5, Position { row: 3, col: 0 })),
        MoveResult::IllegalMove(Move::Piece(E5, Position { row: 3, col: 0 }))
    );
}

#[test]
fn checkmate_by_queen_and_rook() {
    let board: Board = BoardBuilder::default()
        .enable_castling()
        .piece(Piece::King(WHITE, E1))
        .piece(Piece::Queen(BLACK, E2))
        .piece(Piece::Rook(BLACK, E8))
        .build();
    assert!(board.is_in_check(WHITE));
    assert_eq!(board.get_piece_legal_moves(E1), Vec::<Move>::new());
    assert_eq!(board.get_legal_moves(WHITE), Vec::<Move>::new());
    assert!(board.is_checkmate());
    assert!(!board.is_stalemate());
}

#[test]
fn stalemate_by_insufficient_material() {
    let board: Board = BoardBuilder::default()
        .piece(Piece::King(WHITE, Position { row: 2, col: 6 }))
        .piece(Piece::Knight(WHITE, Position { row: 2, col: 7 }))
        .piece(Piece::King(BLACK, H1))
        .build()
        .change_turn();
    assert!(!board.is_in_check(BLACK));
    assert_eq!(board.get_legal_moves(BLACK), Vec::<Move>::new());
    assert!(board.is_stalemate());
    assert!(!board.is_checkmate());
    // Both sides short of material draw whoever is to move.
    let bare: Board = BoardBuilder::default()
        .piece(Piece::King(WHITE, E1))
        .piece(Piece::Bishop(WHITE, D1))
        .piece(Piece::King(BLACK, E8))
        .build();
    assert!(!bare.get_legal_moves(WHITE).is_empty());
    assert!(bare.is_stalemate());
    assert!(bare.has_insufficient_material(WHITE));
    assert!(bare.has_insufficient_material(BLACK));
}

#[test]
fn material_that_suffices() {
    let with = |pieces: &[Piece]| {
        let mut builder = BoardBuilder::default();
        for piece in pieces {
            builder = builder.piece(*piece);
        }
        builder.build()
    };
    let king = Piece::King(WHITE, E1);
    assert!(!with(&[king]).has_sufficient_material(WHITE));
    assert!(!with(&[king, Piece::Knight(WHITE, A1)]).has_sufficient_material(WHITE));
    assert!(!with(&[king, Piece::Bishop(WHITE, A1)]).has_sufficient_material(WHITE));
    assert!(
        !with(&[king, Piece::Knight(WHITE, A1), Piece::Knight(WHITE, H1)])
            .has_sufficient_material(WHITE)
    );
    assert!(
        !with(&[king, Piece::Bishop(WHITE, A1), Piece::Bishop(WHITE, H1)])
            .has_sufficient_material(WHITE)
    );
    // Anything else suffices.
    assert!(
        with(&[king, Piece::Bishop(WHITE, A1), Piece::Knight(WHITE, H1)])
            .has_sufficient_material(WHITE)
    );
    assert!(with(&[king, Piece::Rook(WHITE, A1)]).has_sufficient_material(WHITE));
    assert!(with(&[king, Piece::Pawn(WHITE, E2)]).has_sufficient_material(WHITE));
    assert!(with(&[king, Piece::Queen(WHITE, D1)]).has_sufficient_material(WHITE));
    assert!(with(&[
        king,
        Piece::Knight(WHITE, A1),
        Piece::Knight(WHITE, H1),
        Piece::Knight(WHITE, D1)
    ])
    .has_sufficient_material(WHITE));
    assert!(with(&[king, Piece::King(WHITE, D1)]).has_sufficient_material(WHITE));
    assert!(with(&[Piece::Knight(WHITE, A1)]).has_sufficient_material(WHITE));
    assert!(with(&[]).has_sufficient_material(WHITE));
    // The other player's pieces do not count.
    assert!(!with(&[king, Piece::Queen(BLACK, D1)]).has_sufficient_material(WHITE));
}

#[test]
fn promotion_is_played_in_two_steps() {
    let board: Board = BoardBuilder::default()
        .piece(Piece::Pawn(WHITE, B7))
        .piece(Piece::King(WHITE, E1))
        .piece(Piece::King(BLACK, H8))
        .build();
    let pending = match board.play_move(Move::Piece(B7, B8)) {
        MoveResult::Promote(pending, pos) => {
            assert_eq!(pos, B8);
            pending
        }
        other => panic!("no promotion: {:?}", other),
    };
    // The turn waits for the promotion.
    assert_eq!(pending.get_turn(), WHITE);
    assert_eq!(pending.get_promoting_pawn(), Some(B8));
    for (kind, piece) in [
        (Promotion::Queen, Piece::Queen(WHITE, B8)),
        (Promotion::Rook, Piece::Rook(WHITE, B8)),
        (Promotion::Bishop, Piece::Bishop(WHITE, B8)),
        (Promotion::Knight, Piece::Knight(WHITE, B8)),
    ] {
        let promoted = pending.promote(kind);
        assert_eq!(promoted.get_piece(B8), Some(piece));
        assert_eq!(promoted.get_promoting_pawn(), None);
        assert_eq!(promoted.get_turn(), BLACK);
    }
    // A black pawn promotes on the first rank.
    let black: Board = BoardBuilder::default()
        .piece(Piece::Pawn(BLACK, Position { row: 1, col: 0 }))
        .piece(Piece::King(WHITE, E1))
        .piece(Piece::King(BLACK, H8))
        .player_moving(BLACK)
        .build();
    assert!(matches!(
        black.play_move(Move::Piece(Position { row: 1, col: 0 }, A1)),
        MoveResult::Promote(_, pos) if pos == A1
    ));
}

#[test]
fn moves_off_the_board_are_illegal() {
    let board = Board::default();
    let off = Position::new(-1, 4);
    assert_eq!(board.get_piece(off), None);
    assert!(board.has_no_piece(off));
    assert!(!board.has_piece(off));
    assert!(!board.is_legal_move(Move::Piece(E1, off), WHITE));
    assert!(!board.is_legal_move(Move::Piece(off, E1), WHITE));
    assert!(!board.is_threatened(off, WHITE));
    // Applied all the same, such a move only forgets the en passant square
    // and the captured piece.
    let mut marked = board;
    marked.en_passant = Some(E3);
    marked.taken_piece = Some(Piece::Pawn(BLACK, E3));
    let after = marked.apply_move(Move::Piece(E1, off));
    assert_eq!(after, board);
    // The other player's pieces do not move for this player.
    assert!(!board.is_legal_move(Move::Piece(Position { row: 6, col: 4 }, E5), WHITE));
    assert!(board.is_legal_move(Move::Piece(Position { row: 6, col: 4 }, E5), BLACK));
}

#[test]
fn a_capture_is_remembered_for_one_move() {
    let board: Board = BoardBuilder::default()
        .piece(Piece::Rook(WHITE, A1))
        .piece(Piece::Knight(BLACK, A8))
        .piece(Piece::King(WHITE, E1))
        .piece(Piece::King(BLACK, H8))
        .build();
    let after = play(board, Move::Piece(A1, A8));
    assert_eq!(after.get_taken_piece(), Some(Piece::Knight(BLACK, A8)));
    assert_eq!(after.get_material_advantage(WHITE), 5);
    assert_eq!(after.get_material_advantage(BLACK), -5);
    let later = play(after, Move::Piece(H8, H7));
    assert_eq!(later.get_taken_piece(), None);
}

#[test]
fn colors_are_opposite() {
    assert_eq!(!WHITE, BLACK);
    assert_eq!(!BLACK, WHITE);
    assert_eq!(WHITE.opposite(), BLACK);
    assert_eq!(Color::Black.opposite(), Color::White);
}

#[test]
fn the_generated_moves_are_the_legal_moves() {
    let pinned: Board = BoardBuilder::default()
        .enable_castling()
        .piece(Piece::King(WHITE, E1))
        .piece(Piece::Rook(WHITE, H1))
        .piece(Piece::Rook(WHITE, E2))
        .piece(Piece::Rook(BLACK, E8))
        .piece(Piece::King(BLACK, A8))
        .piece(Piece::Queen(BLACK, H5))
        .piece(Piece::Pawn(WHITE, Position { row: 1, col: 1 }))
        .piece(Piece::Knight(BLACK, Position { row: 2, col: 2 }))
        .build();
    for board in [Board::default(), middle_game(), pinned, Board::horde()] {
        for color in [WHITE, BLACK] {
            let moves = board.get_legal_moves(color);
            for from_row in -1..9 {
                for from_col in -1..9 {
                    let from = Position::new(from_row, from_col);
                    assert_eq!(
                        board.get_piece_legal_moves(from).is_empty(),
                        !moves.iter().any(|m| matches!(m, Move::Piece(f, _) if *f == from))
                            && !(board.get_piece(from).map_or(false, |p| p.get_color() != color
                                && !board.get_legal_moves(!color).is_empty()
                                && board
                                    .get_legal_moves(!color)
                                    .iter()
                                    .any(|m| matches!(m, Move::Piece(f, _) if *f == from)))),
                    );
                    for to_row in -1..9 {
                        for to_col in -1..9 {
                            let m = Move::Piece(from, Position::new(to_row, to_col));
                            assert_eq!(
                                moves.contains(&m),
                                board.is_legal_move(m, color),
                                "{:?} for {:?}",
                                m,
                                color
                            );
                        }
                    }
                }
            }
            for m in [Move::KingSideCastle, Move::QueenSideCastle] {
                assert_eq!(
                    moves.contains(&m),
                    board.is_legal_move(m, color) && board.get_king_pos(color).is_some()
                );
            }
            assert!(!moves.contains(&Move::Resign));
        }
    }
}

#[test]
fn castling_rights_are_only_lost() {
    let fewer = |after: &Board, before: &Board| {
        let pairs = [
            (after.white_castling_rights, before.white_castling_rights),
            (after.black_castling_rights, before.black_castling_rights),
        ];
        pairs.iter().all(|(a, b)| {
            (!a.can_kingside_castle() || b.can_kingside_castle())
                && (!a.can_queenside_castle() || b.can_queenside_castle())
        })
    };
    let mut boards = vec![Board::default(), middle_game()];
    for _ in 0..3 {
        let mut next = Vec::new();
        for board in &boards {
            for color in [WHITE, BLACK] {
                let board = board.set_turn(color);
                for m in board.get_legal_moves(color).into_iter().step_by(5) {
                    let after = board.apply_move(m);
                    assert!(fewer(&after, &board), "{:?}", m);
                    next.push(after);
                }
            }
        }
        next.truncate(12);
        boards = next;
    }
    // The king gives up both rights, a rook that of its side.
    let board = middle_game();
    let king = board.apply_move(Move::Piece(E1, E2));
    assert!(!king.white_castling_rights.can_kingside_castle());
    assert!(!king.white_castling_rights.can_queenside_castle());
    let rook = board.apply_move(Move::Piece(H1, G1));
    assert!(!rook.white_castling_rights.can_kingside_castle());
    assert!(rook.white_castling_rights.can_queenside_castle());
    let other = board.apply_move(Move::Piece(A1, Position { row: 0, col: 1 }));
    assert!(other.white_castling_rights.can_kingside_castle());
    assert!(!other.white_castling_rights.can_queenside_castle());
    assert!(other.black_castling_rights.can_kingside_castle());
    assert!(other.black_castling_rights.can_queenside_castle());
}

#[test]
fn the_turn_passes_once_with_each_move() {
    let board = Board::default();
    assert_eq!(board.apply_move(Move::Piece(E2, E4)).get_turn(), WHITE);
    match board.play_move(Move::Piece(E2, E4)) {
        MoveResult::Continuing(next) => {
            assert_eq!(next.get_turn(), BLACK);
            assert_eq!(next.get_promoting_pawn(), None);
            assert_eq!(next, board.apply_move(Move::Piece(E2, E4)).change_turn());
        }
        other => panic!("{:?}", other),
    }
    assert_eq!(board.change_turn().change_turn(), board);
    assert_eq!(board.set_turn(BLACK), board.change_turn());
}

#[test]
fn a_played_move_leaves_the_mover_safe() {
    for board in [Board::default(), middle_game()] {
        for m in board.get_legal_moves(WHITE) {
            match board.play_move(m) {
                MoveResult::Continuing(next) | MoveResult::Promote(next, _) => {
                    assert!(!next.is_in_check(WHITE), "{:?}", m);
                    assert!(next.is_valid());
                }
                MoveResult::Victory(winner) => assert_eq!(winner, WHITE),
                MoveResult::Stalemate => {}
                MoveResult::IllegalMove(m) => panic!("{:?} is legal", m),
            }
        }
    }
}
