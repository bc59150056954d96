use chess_rules::constants::{B_KING, B_PAWN, B_ROOK, W_KING, W_PAWN, W_ROOK};
use chess_rules::{ChessGame, Color, MoveError, PromotionError};

fn loaded(text: &str) -> ChessGame {
    let mut game = ChessGame::new();
    assert_eq!(game.load_fen(text), Ok(()));
    game
}

fn destinations(game: &ChessGame, x: usize, y: usize) -> Vec<(usize, usize)> {
    let flat = game.get_moves(x, y);
    assert_eq!(flat.len() % 2, 0);
    flat.chunks(2).map(|pair| (pair[0], pair[1])).collect()
}

/// Every square from which a piece of `by` has a capturing shape onto the target.
fn attackers(game: &ChessGame, tx: i32, ty: i32, by: Color) -> Vec<(i32, i32)> {
    let mut found = Vec::new();
    for x in 0..8 {
        for y in 0..8 {
            let held = game.piece_on(x, y).map_or(false, |piece| piece.color == by);
            if held && game.is_valid_move_shape_and_obstruction(x, y, tx, ty) {
                found.push((x, y));
            }
        }
    }
    found
}

#[test]
fn refusal_names_the_first_failing_test() {
    let mut game = ChessGame::new();
    assert_eq!(game.make_move(4, 4, 3, 4), Err(MoveError::NoPiece));
    assert_eq!(game.make_move(8, 0, 7, 0), Err(MoveError::NoPiece));
    assert_eq!(game.make_move(0, 9, 9, 9), Err(MoveError::NoPiece));
    assert_eq!(game.make_move(usize::MAX, 0, 0, 0), Err(MoveError::NoPiece));
    assert_eq!(game.make_move(1, 4, 3, 4), Err(MoveError::WrongTurn));
    assert_eq!(game.make_move(1, 4, 9, 9), Err(MoveError::WrongTurn));
    assert_eq!(game.make_move(6, 4, 6, 4), Err(MoveError::InvalidShape));
    assert_eq!(game.make_move(7, 0, 8, 0), Err(MoveError::InvalidShape));
    assert_eq!(game.make_move(7, 0, 7, usize::MAX), Err(MoveError::InvalidShape));
    assert_eq!(game.make_move(6, 4, 3, 4), Err(MoveError::InvalidShape));
    assert_eq!(game.make_move(6, 4, 5, 5), Err(MoveError::InvalidShape));
    assert_eq!(game.make_move(6, 4, 7, 4), Err(MoveError::BlockedPath));
    assert_eq!(game.make_move(7, 1, 6, 3), Err(MoveError::BlockedPath));
    assert_eq!(game.make_move(7, 1, 5, 1), Err(MoveError::InvalidShape));
    assert_eq!(game.make_move(7, 0, 5, 0), Err(MoveError::BlockedPath));
    assert_eq!(game.make_move(7, 0, 6, 0), Err(MoveError::BlockedPath));
    assert_eq!(game.make_move(7, 2, 5, 4), Err(MoveError::BlockedPath));
    assert_eq!(game.make_move(7, 3, 4, 3), Err(MoveError::BlockedPath));
    assert_eq!(game.make_move(7, 3, 5, 4), Err(MoveError::InvalidShape));
    assert_eq!(game.make_move(7, 4, 7, 6), Err(MoveError::BlockedPath));
    assert_eq!(game.make_move(7, 4, 5, 4), Err(MoveError::InvalidShape));
    assert_eq!(game.fen(), "rnbqkbnr/pppppppp/8/8/8/8/PPPPPPPP/RNBQKBNR w KQkq - 0 1");
}

#[test]
fn pinned_piece_may_not_leave_the_line() {
    let mut game = loaded("4r2k/8/8/8/8/8/4B3/4K3 w - - 0 1");
    assert!(!game.check());
    assert!(!game.is_valid_move(6, 4, 5, 5));
    assert_eq!(game.make_move(6, 4, 5, 5), Err(MoveError::LeavesKingInCheck));
    assert_eq!(game.validate_move(6, 4, 5, 5), Err(MoveError::LeavesKingInCheck));
    assert_eq!(game.validate_move(7, 4, 7, 3), Ok(()));
    assert!(destinations(&game, 6, 4).is_empty());
    assert_eq!(game.fen(), "4r2k/8/8/8/8/8/4B3/4K3 w - - 0 1");

    let mut rook = loaded("4r2k/8/8/8/8/8/4R3/4K3 w - - 0 1");
    assert_eq!(
        destinations(&rook, 6, 4),
        vec![(0, 4), (1, 4), (2, 4), (3, 4), (4, 4), (5, 4)]
    );
    assert_eq!(rook.make_move(6, 4, 6, 0), Err(MoveError::LeavesKingInCheck));
    assert_eq!(rook.make_move(6, 4, 0, 4), Ok(None));
    assert_eq!(rook.get_piece(0, 4), W_ROOK);
}

#[test]
fn king_may_not_step_into_an_attack() {
    let mut game = loaded("4r2k/8/8/8/8/8/8/3K4 w - - 0 1");
    assert_eq!(game.make_move(7, 3, 7, 4), Err(MoveError::LeavesKingInCheck));
    assert_eq!(game.make_move(7, 3, 6, 4), Err(MoveError::LeavesKingInCheck));
    assert_eq!(game.make_move(7, 3, 7, 2), Ok(None));
}

#[test]
fn check_must_be_answered() {
    let mut game = loaded("4r2k/8/8/8/8/8/3P4/R3K3 w Q - 0 1");
    assert!(game.check());
    assert_eq!(game.make_move(6, 3, 5, 3), Err(MoveError::LeavesKingInCheck));
    assert_eq!(game.make_move(7, 4, 7, 2), Err(MoveError::LeavesKingInCheck));
    assert_eq!(game.make_move(7, 0, 7, 1), Err(MoveError::LeavesKingInCheck));
    assert_eq!(game.make_move(7, 4, 7, 3), Ok(None));
}

#[test]
fn legal_move_never_leaves_the_mover_in_check() {
    let texts = [
        "rnbqkbnr/pppppppp/8/8/8/8/PPPPPPPP/RNBQKBNR w KQkq - 0 1",
        "r3k2r/pppq1ppp/2n2n2/2b1p3/2B1P1b1/2NP1N2/PPP2PPP/R1BQK2R w KQkq - 0 1",
        "4r2k/8/8/8/8/8/4B3/4K3 w - - 0 1",
        "r3k2r/8/8/8/8/8/8/R3K2R b KQkq - 0 1",
        "8/2p5/3p4/KP5r/1R3p1k/8/4P1P1/8 w - - 0 1",
        "rnbqkbnr/ppp1pppp/8/8/3pP3/8/PPPP1PPP/RNBQKBNR b KQkq e3 0 1",
    ];
    for text in texts {
        let game = loaded(text);
        let mover = game.get_current_turn();
        for sx in 0..8 {
            for sy in 0..8 {
                for (ex, ey) in destinations(&game, sx, sy) {
                    let mut next = game;
                    assert!(next.make_move(sx, sy, ex, ey).is_ok());
                    assert!(!next.is_check(mover), "{} {:?}", text, (sx, sy, ex, ey));
                    let mut trial = game;
                    trial.make_move_internal(sx as i32, sy as i32, ex as i32, ey as i32, true);
                    assert!(!trial.is_check(mover));
                    assert_eq!(trial.get_board(), next.get_board());
                }
            }
        }
    }
}

#[test]
fn attack_agrees_with_going_through_every_piece() {
    let texts = [
        "rnbqkbnr/pppppppp/8/8/8/8/PPPPPPPP/RNBQKBNR w KQkq - 0 1",
        "r3k2r/pppq1ppp/2n2n2/2b1p3/2B1P1b1/2NP1N2/PPP2PPP/R1BQK2R w KQkq - 0 1",
        "8/2p5/3p4/KP5r/1R3p1k/8/4P1P1/8 w - - 0 1",
        "8/8/8/8/8/8/8/8 w - - 0 1",
    ];
    for text in texts {
        let game = loaded(text);
        for by in [Color::White, Color::Black] {
            for tx in -1..9 {
                for ty in -1..9 {
                    assert_eq!(
                        game.is_square_attacked(tx, ty, by),
                        !attackers(&game, tx, ty, by).is_empty(),
                        "{} {:?}",
                        text,
                        (tx, ty)
                    );
                }
            }
        }
    }
}

#[test]
fn attack_follows_the_capturing_shapes() {
    let game = loaded("8/8/8/3p4/8/2P2N2/8/R3K2b w - - 0 1");
    assert_eq!(attackers(&game, 4, 3, Color::White), vec![(5, 2), (5, 5)]);
    assert!(game.is_square_attacked(4, 3, Color::White));
    assert!(!game.is_square_attacked(4, 2, Color::White));
    assert!(game.is_square_attacked(4, 1, Color::White));
    assert!(game.is_square_attacked(4, 2, Color::Black));
    assert!(game.is_square_attacked(4, 4, Color::Black));
    assert!(!game.is_square_attacked(4, 3, Color::Black));
    assert!(!game.is_square_attacked(2, 3, Color::Black));
    assert!(game.is_square_attacked(0, 0, Color::White));
    assert!(game.is_square_attacked(7, 3, Color::White));
    assert!(!game.is_square_attacked(7, 5, Color::White) || attackers(&game, 7, 5, Color::White) == vec![(7, 4)]);
    assert!(game.is_square_attacked(5, 5, Color::Black));
    assert!(!game.is_square_attacked(4, 4, Color::White) || !attackers(&game, 4, 4, Color::White).is_empty());
    assert!(game.is_square_attacked(7, 7, Color::White) == !attackers(&game, 7, 7, Color::White).is_empty());
    assert!(!game.is_square_attacked(8, 8, Color::White));
    assert!(!game.is_square_attacked(-1, 0, Color::Black));
}

#[test]
fn slider_is_stopped_by_the_first_piece() {
    let game = loaded("8/8/8/8/8/8/8/R2pK3 w - - 0 1");
    assert!(game.is_path_clear(7, 0, 7, 3));
    assert!(!game.is_path_clear(7, 0, 7, 4));
    assert!(game.is_path_clear(7, 0, 0, 0));
    assert!(game.is_path_clear(7, 0, 7, 1));
    assert!(game.is_path_clear(7, 4, 3, 0));
    assert!(game.is_valid_move(7, 0, 7, 3));
    assert!(!game.is_valid_move(7, 0, 7, 4));
    assert!(game.is_square_attacked(7, 3, Color::White));
    assert!(!game.is_square_attacked(7, 5, Color::Black));
    assert_eq!(
        destinations(&game, 7, 0),
        vec![(0, 0), (1, 0), (2, 0), (3, 0), (4, 0), (5, 0), (6, 0), (7, 1), (7, 2), (7, 3)]
    );
}

#[test]
fn destinations_are_listed_in_row_major_order() {
    let game = ChessGame::new();
    assert_eq!(game.get_moves(7, 1), vec![5, 0, 5, 2]);
    assert_eq!(game.get_moves(6, 0), vec![4, 0, 5, 0]);
    assert!(game.get_moves(7, 0).is_empty());
    assert!(game.get_moves(4, 4).is_empty());
    assert!(game.get_moves(1, 0).is_empty());
    assert!(game.get_moves(8, 0).is_empty());
    assert!(game.get_moves(0, 8).is_empty());
    assert!(game.get_moves(usize::MAX, 3).is_empty());
    for x in 0..8 {
        for y in 0..8 {
            let listed = destinations(&game, x, y);
            for ex in 0..8 {
                for ey in 0..8 {
                    assert_eq!(
                        listed.contains(&(ex, ey)),
                        game.is_valid_move(x as i32, y as i32, ex as i32, ey as i32)
                    );
                }
            }
        }
    }
}

#[test]
fn coordinates_outside_the_board_make_no_legal_move() {
    let game = ChessGame::new();
    assert!(!game.is_valid_move(-1, 0, 0, 0));
    assert!(!game.is_valid_move(6, 4, 8, 4));
    assert!(!game.is_valid_move(6, 4, 5, -1));
    assert!(!game.is_valid_move(i32::MIN, i32::MAX, i32::MAX, i32::MIN));
    assert!(!game.is_valid_move(6, 4, i32::MAX, 4));
    assert_eq!(game.validate_move(6, 4, i32::MIN, 4), Err(MoveError::InvalidShape));
    assert_eq!(game.validate_move(i32::MAX, 4, 5, 4), Err(MoveError::NoPiece));
    assert!(!game.is_en_passant_move(i32::MIN, 0, i32::MAX, 1));
    assert!(!game.is_valid_move_shape_and_obstruction(i32::MIN, 0, i32::MAX, 1));
}

#[test]
fn pawn_moves_follow_its_rules() {
    let game = loaded("4k3/8/8/8/8/p1n5/PPP5/4K3 w - - 0 1");
    assert_eq!(game.validate_move(6, 0, 5, 0), Err(MoveError::BlockedPath));
    assert_eq!(game.validate_move(6, 0, 4, 0), Err(MoveError::BlockedPath));
    assert_eq!(game.validate_move(6, 1, 5, 1), Ok(()));
    assert_eq!(game.validate_move(6, 1, 4, 1), Ok(()));
    assert_eq!(game.validate_move(6, 1, 5, 0), Ok(()));
    assert_eq!(game.validate_move(6, 1, 5, 2), Ok(()));
    assert_eq!(game.validate_move(6, 1, 7, 1), Err(MoveError::InvalidShape));
    assert_eq!(game.validate_move(6, 1, 6, 3), Err(MoveError::InvalidShape));
    assert_eq!(game.validate_move(6, 2, 5, 2), Err(MoveError::BlockedPath));
    assert_eq!(game.validate_move(6, 2, 4, 2), Err(MoveError::BlockedPath));
    assert_eq!(game.validate_move(6, 2, 5, 3), Err(MoveError::InvalidShape));
    assert_eq!(game.is_valid_pawn_move_detailed(6, 1, 5, 1, Color::White), Ok(()));
    assert_eq!(
        game.is_valid_pawn_move_detailed(6, 0, 4, 0, Color::White),
        Err(MoveError::BlockedPath)
    );
    assert_eq!(
        game.is_valid_pawn_move_detailed(6, 1, 3, 1, Color::White),
        Err(MoveError::InvalidShape)
    );

    let later = loaded("4k3/8/8/8/8/1P6/8/4K3 w - - 0 1");
    assert_eq!(later.validate_move(5, 1, 4, 1), Ok(()));
    assert_eq!(later.validate_move(5, 1, 3, 1), Err(MoveError::InvalidShape));

    let black = loaded("4k3/1p6/8/8/8/8/8/4K3 b - - 0 1");
    assert_eq!(black.validate_move(1, 1, 2, 1), Ok(()));
    assert_eq!(black.validate_move(1, 1, 3, 1), Ok(()));
    assert_eq!(black.validate_move(1, 1, 0, 1), Err(MoveError::InvalidShape));
}

#[test]
fn double_step_sets_the_target_and_any_other_move_clears_it() {
    let mut game = ChessGame::new();
    assert_eq!(game.make_move(6, 0, 4, 0), Ok(None));
    assert_eq!(game.en_passant(), Some((5, 0)));
    assert_eq!(game.make_move(1, 7, 3, 7), Ok(None));
    assert_eq!(game.en_passant(), Some((2, 7)));
    assert_eq!(game.make_move(6, 1, 5, 1), Ok(None));
    assert_eq!(game.en_passant(), None);
    assert_eq!(game.make_move(0, 6, 2, 5), Ok(None));
    assert_eq!(game.en_passant(), None);
}

#[test]
fn castling_brings_the_rook_along() {
    let mut kingside = loaded("r3k2r/8/8/8/8/8/8/R3K2R w KQkq - 0 1");
    assert_eq!(kingside.make_move(7, 4, 7, 6), Ok(None));
    assert_eq!(kingside.fen(), "r3k2r/8/8/8/8/8/8/R4RK1 b kq - 0 1");
    assert_eq!(kingside.make_move(0, 4, 0, 2), Ok(None));
    assert_eq!(kingside.fen(), "2kr3r/8/8/8/8/8/8/R4RK1 w - - 0 1");

    let mut queenside = loaded("r3k2r/8/8/8/8/8/8/R3K2R w KQkq - 0 1");
    assert_eq!(queenside.make_move(7, 4, 7, 2), Ok(None));
    assert_eq!(queenside.get_piece(7, 2), W_KING);
    assert_eq!(queenside.get_piece(7, 3), W_ROOK);
    assert_eq!(queenside.get_piece(7, 0), 0);
    assert_eq!(queenside.get_piece(7, 7), W_ROOK);
    assert_eq!(queenside.make_move(0, 4, 0, 6), Ok(None));
    assert_eq!(queenside.get_piece(0, 6), B_KING);
    assert_eq!(queenside.get_piece(0, 5), B_ROOK);
    assert_eq!(queenside.get_piece(0, 7), 0);
    assert_eq!(queenside.fen(), "r4rk1/8/8/8/8/8/8/2KR3R w - - 0 1");
}

#[test]
fn castling_needs_an_empty_lane_and_safe_squares() {
    let blocked = loaded("4k3/8/8/8/8/8/8/RN2K1NR w KQ - 0 1");
    assert_eq!(blocked.validate_move(7, 4, 7, 6), Err(MoveError::BlockedPath));
    assert_eq!(blocked.validate_move(7, 4, 7, 2), Err(MoveError::BlockedPath));
    assert!(!blocked.is_castling_lane_clear(7, 4, true));
    assert!(!blocked.is_castling_lane_clear(7, 4, false));

    let open = loaded("4k3/8/8/8/8/8/8/R3K2R w KQ - 0 1");
    assert!(open.is_castling_lane_clear(7, 4, true));
    assert!(open.is_castling_lane_clear(7, 4, false));
    assert_eq!(open.is_valid_king_move_detailed(7, 4, 7, 6, Color::White), Ok(()));
    assert_eq!(open.is_valid_king_move_detailed(7, 4, 7, 2, Color::White), Ok(()));
    assert_eq!(open.is_valid_king_move_detailed(7, 4, 6, 4, Color::White), Ok(()));
    assert_eq!(
        open.is_valid_king_move_detailed(7, 4, 5, 4, Color::White),
        Err(MoveError::InvalidShape)
    );
    assert_eq!(
        open.is_valid_king_move_detailed(7, 4, 6, 6, Color::White),
        Err(MoveError::InvalidShape)
    );

    let in_check = loaded("4r2k/8/8/8/8/8/8/R3K2R w KQ - 0 1");
    assert_eq!(in_check.validate_move(7, 4, 7, 6), Err(MoveError::LeavesKingInCheck));
    assert_eq!(in_check.validate_move(7, 4, 7, 2), Err(MoveError::LeavesKingInCheck));

    let crossed = loaded("5r1k/8/8/8/8/8/8/R3K2R w KQ - 0 1");
    assert_eq!(crossed.validate_move(7, 4, 7, 6), Err(MoveError::LeavesKingInCheck));
    assert_eq!(crossed.validate_move(7, 4, 7, 2), Ok(()));

    let landing = loaded("2r4k/8/8/8/8/8/8/R3K2R w KQ - 0 1");
    assert_eq!(landing.validate_move(7, 4, 7, 2), Err(MoveError::LeavesKingInCheck));
    assert_eq!(landing.validate_move(7, 4, 7, 6), Ok(()));

    let rook_lane = loaded("1r5k/8/8/8/8/8/8/R3K2R w KQ - 0 1");
    assert_eq!(rook_lane.validate_move(7, 4, 7, 2), Ok(()));

    let no_right = loaded("4k3/8/8/8/8/8/8/R3K2R w K - 0 1");
    assert_eq!(no_right.validate_move(7, 4, 7, 6), Ok(()));
    assert_eq!(no_right.validate_move(7, 4, 7, 2), Err(MoveError::InvalidShape));
}

#[test]
fn rook_leaving_its_corner_loses_that_right_only() {
    let mut game = loaded("r3k2r/8/8/8/8/8/8/R3K2R w KQkq - 0 1");
    assert_eq!(game.make_move(7, 7, 6, 7), Ok(None));
    assert_eq!(game.fen(), "r3k2r/8/8/8/8/8/7R/R3K3 b Qkq - 0 1");
    assert_eq!(game.make_move(0, 0, 0, 1), Ok(None));
    assert_eq!(game.fen(), "1r2k2r/8/8/8/8/8/7R/R3K3 w Qk - 0 1");
    assert_eq!(game.make_move(6, 7, 7, 7), Ok(None));
    assert_eq!(game.fen(), "1r2k2r/8/8/8/8/8/8/R3K2R b Qk - 0 1");
    assert_eq!(game.make_move(0, 4, 1, 4), Ok(None));
    assert_eq!(game.fen(), "1r5r/4k3/8/8/8/8/8/R3K2R w Q - 0 1");
    assert_eq!(game.make_move(7, 4, 7, 6), Err(MoveError::InvalidShape));
    assert_eq!(game.make_move(7, 4, 7, 2), Ok(None));
    assert_eq!(game.fen(), "1r5r/4k3/8/8/8/8/8/2KR3R b - - 0 1");
}

#[test]
fn simulation_moves_pieces_and_keeps_the_books() {
    let mut game = loaded("r3k2r/8/8/8/8/8/P7/R3K2R w KQkq - 0 1");
    assert_eq!(game.make_move_internal(7, 4, 7, 6, true), None);
    assert_eq!(game.fen(), "r3k2r/8/8/8/8/8/P7/R4RK1 w KQkq - 0 1");
    assert_eq!(game.make_move_internal(6, 0, 4, 0, true), None);
    assert_eq!(game.fen(), "r3k2r/8/8/8/P7/8/8/R4RK1 w KQkq - 0 1");
    assert_eq!(game.make_move_internal(4, 0, 3, 0, false), None);
    assert_eq!(game.fen(), "r3k2r/8/8/P7/8/8/8/R4RK1 b KQkq - 0 1");
    assert_eq!(game.make_move_internal(0, 4, 0, 2, false), None);
    assert_eq!(game.fen(), "2kr3r/8/8/P7/8/8/8/R4RK1 w KQ - 0 1");

    let mut pawn = loaded("7k/P7/8/8/8/8/8/7K w - - 0 1");
    assert_eq!(pawn.make_move_internal(1, 0, 0, 0, true), None);
    assert_eq!(pawn.get_current_turn(), 1);
    let mut pawn = loaded("7k/P7/8/8/8/8/8/7K w - - 0 1");
    assert_eq!(pawn.make_move_internal(1, 0, 0, 0, false), Some((0, 0)));
    assert_eq!(pawn.get_current_turn(), 1);
    assert_eq!(pawn.get_piece(0, 0), W_PAWN);
}

#[test]
fn promotion_is_refused_for_each_reason() {
    let mut game = loaded("P6k/1P6/8/8/8/8/6p1/K6p w - - 0 1");
    let before = game.fen();
    assert_eq!(game.promote_pawn(8, 0, 5), Err(PromotionError::OutOfBounds));
    assert_eq!(game.promote_pawn(0, 8, 5), Err(PromotionError::OutOfBounds));
    assert_eq!(game.promote_pawn(0, 1, 5), Err(PromotionError::NoPawn));
    assert_eq!(game.promote_pawn(0, 7, 11), Err(PromotionError::NoPawn));
    assert_eq!(game.promote_pawn(1, 1, 5), Err(PromotionError::NotOnPromotionRank));
    assert_eq!(game.promote_pawn(6, 6, 11), Err(PromotionError::NotOnPromotionRank));
    assert_eq!(game.promote_pawn(0, 0, 11), Err(PromotionError::InvalidPiece));
    assert_eq!(game.promote_pawn(0, 0, 6), Err(PromotionError::InvalidPiece));
    assert_eq!(game.promote_pawn(7, 7, 5), Err(PromotionError::InvalidPiece));
    assert_eq!(game.promote_pawn(7, 7, 7), Err(PromotionError::InvalidPiece));
    assert_eq!(game.promote_pawn(1, 1, 99), Err(PromotionError::NotOnPromotionRank));
    assert_eq!(game.fen(), before);
    for (code, letter) in [(2, 'R'), (3, 'N'), (4, 'B'), (5, 'Q')] {
        let mut copy = game;
        assert_eq!(copy.promote_pawn(0, 0, code), Ok(()));
        assert_eq!(copy.get_piece(0, 0), code);
        assert_eq!(copy.fen(), format!("{}6k/1P6/8/8/8/8/6p1/K6p w - - 0 1", letter));
    }
    assert_eq!(game.promote_pawn(7, 7, 8), Ok(()));
    assert_eq!(game.fen(), "P6k/1P6/8/8/8/8/6p1/K6r w - - 0 1");
    assert_eq!(game.get_piece(6, 6), B_PAWN);
}

#[test]
fn turn_passes_by_hand_without_touching_the_rest() {
    let mut game = ChessGame::new();
    game.change_turn();
    assert_eq!(game.get_current_turn(), 2);
    assert_eq!(game.fen(), "rnbqkbnr/pppppppp/8/8/8/8/PPPPPPPP/RNBQKBNR b KQkq - 0 1");
    assert!(game.is_valid_move(1, 4, 3, 4));
    assert!(!game.is_valid_move(6, 4, 4, 4));
    game.change_turn();
    assert_eq!(game.get_current_turn(), 1);
    let black_only = loaded("r3k2r/8/8/8/8/8/8/R3K2R b Qk - 0 1");
    assert!(black_only.can_castle_kingside());
    let mut other = black_only;
    other.change_turn();
    assert!(!other.can_castle_kingside());
}

#[test]
fn king_is_found_in_row_major_order() {
    let game = loaded("8/8/2k5/8/8/5K2/8/8 w - - 0 1");
    assert_eq!(game.get_king_position(), vec![5, 5]);
    assert_eq!(game.find_king(Color::Black), Some((2, 2)));
    let two = loaded("8/1K6/8/8/8/5K2/8/k7 w - - 0 1");
    assert_eq!(two.get_king_position(), vec![1, 1]);
    let mut black = two;
    black.change_turn();
    assert_eq!(black.get_king_position(), vec![7, 0]);
}

#[test]
fn check_is_seen_for_either_color() {
    let game = loaded("4k3/8/8/8/8/8/4q3/4K3 w - - 0 1");
    assert!(game.is_check(1));
    assert!(!game.is_check(2));
    assert!(!game.is_check(0));
    assert!(!game.is_check(77));
    assert!(game.check());
    assert!(!game.checkmate());
    assert_eq!(game.get_moves(7, 4), vec![6, 4]);
    let knight = loaded("4k3/8/3N4/8/8/8/8/4K3 b - - 0 1");
    assert!(knight.is_check(2));
    let pawn = loaded("4k3/3P4/8/8/8/8/8/4K3 b - - 0 1");
    assert!(pawn.is_check(2));
    let ahead = loaded("4k3/4P3/8/8/8/8/8/4K3 b - - 0 1");
    assert!(!ahead.is_check(2));
    let behind = loaded("8/8/4k3/3P4/8/8/8/4K3 b - - 0 1");
    assert!(behind.is_check(2));
    let wrong_way = loaded("8/8/3P4/4k3/8/8/8/4K3 b - - 0 1");
    assert!(!wrong_way.is_check(2));
    let _ = (W_PAWN, B_ROOK);
}
