use chess_rules::constants::{B_KING, B_PAWN, B_QUEEN, W_KING, W_KNIGHT, W_PAWN, W_QUEEN, W_ROOK};
use chess_rules::{ChessGame, Color, FenError, MoveError, PromotionError};

fn game_from(text: &str) -> ChessGame {
    let mut game = ChessGame::new();
    assert_eq!(game.load_fen(text), Ok(()));
    game
}

fn play(game: &mut ChessGame, moves: &[(usize, usize, usize, usize)]) {
    for &(sx, sy, ex, ey) in moves {
        assert_eq!(game.make_move(sx, sy, ex, ey), Ok(None), "move {:?}", (sx, sy, ex, ey));
    }
}

#[test]
fn opening_pawn_may_advance_two_squares_but_not_three() {
    let game = ChessGame::new();
    assert!(game.is_valid_move(6, 4, 4, 4));
    assert!(game.is_valid_move(6, 4, 5, 4));
    assert!(!game.is_valid_move(6, 4, 3, 4));
    for col in 0..8 {
        assert!(game.is_valid_move(6, col, 4, col));
        assert!(!game.is_valid_move(6, col, 3, col));
    }
}

#[test]
fn opening_position_has_twenty_legal_moves() {
    let game = ChessGame::new();
    let mut count = 0;
    for x in 0..8 {
        for y in 0..8 {
            count += game.get_moves(x, y).len() / 2;
        }
    }
    assert_eq!(count, 20);
    assert!(game.legal_move_exists());
    assert!(!game.check());
    assert!(!game.checkmate());
    assert!(!game.is_stalemate());
}

#[test]
fn fools_mate_is_checkmate() {
    let mut game = ChessGame::new();
    play(&mut game, &[(6, 5, 5, 5), (1, 4, 3, 4), (6, 6, 4, 6)]);
    assert!(!game.checkmate());
    play(&mut game, &[(0, 3, 4, 7)]);
    assert_eq!(game.get_current_turn(), 1);
    assert_eq!(game.get_piece(4, 7), B_QUEEN);
    assert!(game.is_check(1));
    assert!(!game.is_check(2));
    assert!(game.check());
    assert!(!game.legal_move_exists());
    assert!(game.checkmate());
    assert!(!game.is_stalemate());
    for x in 0..8 {
        for y in 0..8 {
            assert!(game.get_moves(x, y).is_empty());
        }
    }
}

#[test]
fn en_passant_removes_the_pawn_that_stepped_twice() {
    let mut game = ChessGame::new();
    play(&mut game, &[(6, 4, 4, 4), (1, 0, 2, 0), (4, 4, 3, 4), (1, 3, 3, 3)]);
    assert_eq!(game.en_passant(), Some((2, 3)));
    assert_eq!(game.get_piece(2, 3), 0);
    assert_eq!(game.get_piece(3, 3), B_PAWN);
    assert!(game.is_en_passant_move(3, 4, 2, 3));
    assert!(game.is_valid_move(3, 4, 2, 3));
    assert!(!game.is_valid_move(3, 4, 2, 5));
    assert_eq!(game.make_move(3, 4, 2, 3), Ok(None));
    assert_eq!(game.get_piece(2, 3), W_PAWN);
    assert_eq!(game.get_piece(3, 3), 0);
    assert_eq!(game.get_piece(3, 4), 0);
    assert_eq!(game.en_passant(), None);
    assert_eq!(game.fen(), "rnbqkbnr/1pp1pppp/p2P4/8/8/8/PPPP1PPP/RNBQKBNR b KQkq - 0 1");
}

#[test]
fn en_passant_is_open_for_one_move_only() {
    let mut game = ChessGame::new();
    play(&mut game, &[(6, 4, 4, 4), (1, 0, 2, 0), (4, 4, 3, 4), (1, 3, 3, 3)]);
    assert!(game.is_valid_move(3, 4, 2, 3));
    play(&mut game, &[(6, 0, 5, 0), (2, 0, 3, 0)]);
    assert_eq!(game.en_passant(), None);
    assert!(!game.is_valid_move(3, 4, 2, 3));
    assert_eq!(game.make_move(3, 4, 2, 3), Err(MoveError::InvalidShape));
}

#[test]
fn castling_right_stays_lost_when_the_king_returns() {
    let mut game = game_from("r3k2r/8/8/8/8/8/8/R3K2R w KQkq - 0 1");
    assert!(game.is_valid_move(7, 4, 7, 6));
    assert!(game.is_valid_move(7, 4, 7, 2));
    assert!(game.can_castle_kingside());
    play(&mut game, &[(7, 4, 6, 4), (0, 4, 1, 4), (6, 4, 7, 4), (1, 4, 0, 4)]);
    assert_eq!(game.get_piece(7, 4), W_KING);
    assert_eq!(game.get_piece(7, 7), W_ROOK);
    assert_eq!(game.get_piece(7, 0), W_ROOK);
    assert!(!game.can_castle_kingside());
    assert!(!game.castling_right(Color::White, true));
    assert!(!game.castling_right(Color::White, false));
    assert!(!game.is_valid_move(7, 4, 7, 6));
    assert!(!game.is_valid_move(7, 4, 7, 2));
    assert_eq!(game.make_move(7, 4, 7, 6), Err(MoveError::InvalidShape));
    assert_eq!(game.fen(), "r3k2r/8/8/8/8/8/8/R3K2R w - - 0 1");
}

#[test]
fn promotion_is_pending_until_a_valid_piece_is_chosen() {
    let mut game = game_from("8/P7/8/8/8/8/8/k6K w - - 0 1");
    assert_eq!(game.make_move(1, 0, 0, 0), Ok(Some(vec![0, 0])));
    assert_eq!(game.get_current_turn(), 1);
    assert_eq!(game.get_piece(0, 0), W_PAWN);

    assert_eq!(game.promote_pawn(0, 0, W_KING), Err(PromotionError::InvalidPiece));
    assert_eq!(game.promote_pawn(0, 0, W_PAWN), Err(PromotionError::InvalidPiece));
    assert_eq!(game.promote_pawn(0, 0, B_QUEEN), Err(PromotionError::InvalidPiece));
    assert_eq!(game.promote_pawn(0, 0, 0), Err(PromotionError::InvalidPiece));
    assert_eq!(game.promote_pawn(0, 0, 13), Err(PromotionError::InvalidPiece));
    assert_eq!(game.get_piece(0, 0), W_PAWN);
    assert_eq!(game.get_current_turn(), 1);

    assert_eq!(game.promote_pawn(0, 0, W_QUEEN), Ok(()));
    assert_eq!(game.get_piece(0, 0), W_QUEEN);
    assert_eq!(game.get_current_turn(), 1);
    game.change_turn();
    assert_eq!(game.get_current_turn(), 2);
    assert!(game.check());
}

#[test]
fn black_pawn_promotes_on_the_last_row() {
    let mut game = game_from("7k/8/8/8/8/8/p7/7K b - - 0 1");
    assert_eq!(game.make_move(6, 0, 7, 0), Ok(Some(vec![7, 0])));
    assert_eq!(game.get_current_turn(), 2);
    assert_eq!(game.promote_pawn(7, 0, W_KNIGHT), Err(PromotionError::InvalidPiece));
    assert_eq!(game.promote_pawn(7, 0, 9), Ok(()));
    assert_eq!(game.get_piece(7, 0), 9);
}

#[test]
fn stalemate_is_no_checkmate() {
    let game = game_from("k7/2Q5/1K6/8/8/8/8/8 b - - 0 1");
    assert_eq!(game.get_current_turn(), 2);
    assert!(!game.check());
    assert!(!game.legal_move_exists());
    assert!(game.is_stalemate());
    assert!(!game.checkmate());
}

#[test]
fn back_rank_mate_is_no_stalemate() {
    let game = game_from("R5k1/5ppp/8/8/8/8/8/7K b - - 0 1");
    assert!(game.check());
    assert!(game.checkmate());
    assert!(!game.is_stalemate());
}

#[test]
fn missing_king_is_reported_as_not_in_check() {
    let game = game_from("8/8/8/8/8/8/8/R6K b - - 0 1");
    assert_eq!(game.find_king(Color::Black), None);
    assert!(!game.is_check(2));
    assert!(game.get_king_position().is_empty());
    assert!(!game.checkmate());
    assert!(game.is_stalemate());
    assert_eq!(game.find_king(Color::White), Some((7, 7)));
}

#[test]
fn text_with_three_fields_is_refused_and_changes_nothing() {
    let mut game = ChessGame::new();
    play(&mut game, &[(6, 4, 4, 4)]);
    let before = game.fen();
    assert_eq!(game.load_fen("8/8/8/8/8/8/8/8 w KQkq"), Err(FenError::TooFewFields));
    assert_eq!(game.fen(), before);
    assert_eq!(game.load_fen(""), Err(FenError::TooFewFields));
    assert_eq!(game.load_fen("   \t\n "), Err(FenError::TooFewFields));
    assert_eq!(game.fen(), before);
}
