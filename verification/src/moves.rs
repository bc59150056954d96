//! The move executor, the promotion resolver and the terminal-state queries.

use vstd::prelude::*;
use crate::game::ChessGame;
use crate::piece::{Color, Piece, PieceKind};
use crate::position::{Position, on_board, with_square};
use crate::rules::{
    MoveError,
    PromotionError,
    apply_move,
    board_after,
    destinations_upto,
    has_legal_move,
    in_check,
    is_checkmate,
    is_stalemate,
    king_square,
    legal_destinations,
    legal_move,
    lemma_destinations_exact,
    pending_promotion,
    promotion_check,
    verdict,
};

verus! {

impl ChessGame {
    /// Carries out a move from an occupied square, without asking whether it
    /// is legal. The mechanics come first and in this order: an en-passant
    /// capture removes the passed pawn, the piece goes to its destination, a
    /// castling king brings its rook along. Unless `is_simulation` is set, the
    /// bookkeeping follows: castling rights, en-passant target, and the turn,
    /// which passes on unless the move leaves a promotion pending. Returns the
    /// square of the pending promotion; a simulation reports none.
    pub fn make_move_internal(
        &mut self,
        start_x: i32,
        start_y: i32,
        end_x: i32,
        end_y: i32,
        is_simulation: bool,
    ) -> (pending: Option<(usize, usize)>)
        requires
            on_board(start_x as int, start_y as int),
            on_board(end_x as int, end_y as int),
            old(self)@.at(start_x as int, start_y as int) is Some,
        ensures
            final(self)@ == apply_move(
                old(self)@,
                start_x as int,
                start_y as int,
                end_x as int,
                end_y as int,
                is_simulation,
            ),
            is_simulation ==> pending is None,
            !is_simulation ==> match pending {
                Some((r, c)) => pending_promotion(
                    old(self)@,
                    start_x as int,
                    start_y as int,
                    end_x as int,
                    end_y as int,
                ) == Some((r as int, c as int)),
                None => pending_promotion(
                    old(self)@,
                    start_x as int,
                    start_y as int,
                    end_x as int,
                    end_y as int,
                ) is None,
            },
    {
        let mover: Piece = match self.piece_on(start_x, start_y) {
            Some(piece) => piece,
            None => {
                return None;
            },
        };
        let mover_turn: Color = self.turn();

        if self.is_en_passant_move(start_x, start_y, end_x, end_y) {
            self.set_square(start_x, end_y, None);
        }
        self.set_square(end_x, end_y, Some(mover));
        self.set_square(start_x, start_y, None);

        let two_columns: bool = end_y - start_y == 2 || end_y - start_y == -2;
        if mover.kind == PieceKind::King && two_columns {
            let rook_start_y: i32 = if end_y > start_y {
                7
            } else {
                0
            };
            let rook_end_y: i32 = if end_y > start_y {
                5
            } else {
                3
            };
            let rook: Option<Piece> = self.piece_on(start_x, rook_start_y);
            self.set_square(start_x, rook_end_y, rook);
            self.set_square(start_x, rook_start_y, None);
        }
        assert(self@.squares == board_after(
            old(self)@,
            start_x as int,
            start_y as int,
            end_x as int,
            end_y as int,
        ));
        if is_simulation {
            return None;
        }
        let mut white_kingside: bool = self.castling_right(Color::White, true);
        let mut white_queenside: bool = self.castling_right(Color::White, false);
        let mut black_kingside: bool = self.castling_right(Color::Black, true);
        let mut black_queenside: bool = self.castling_right(Color::Black, false);
        if mover.kind == PieceKind::King {
            match mover.color {
                Color::White => {
                    white_kingside = false;
                    white_queenside = false;
                },
                Color::Black => {
                    black_kingside = false;
                    black_queenside = false;
                },
            }
        }
        if mover.kind == PieceKind::Rook {
            match mover.color {
                Color::White => {
                    if start_x == 7 && start_y == 0 {
                        white_queenside = false;
                    }
                    if start_x == 7 && start_y == 7 {
                        white_kingside = false;
                    }
                },
                Color::Black => {
                    if start_x == 0 && start_y == 0 {
                        black_queenside = false;
                    }
                    if start_x == 0 && start_y == 7 {
                        black_kingside = false;
                    }
                },
            }
        }
        self.set_castling_rights(white_kingside, white_queenside, black_kingside, black_queenside);

        let two_rows: bool = end_x - start_x == 2 || end_x - start_x == -2;
        if mover.kind == PieceKind::Pawn && two_rows {
            let target_row: usize = ((start_x + end_x) / 2) as usize;
            self.set_en_passant(Some((target_row, start_y as usize)));
        } else {
            self.set_en_passant(None);
        }

        if mover.kind == PieceKind::Pawn && end_x == mover.color.promotion_row() {
            Some((end_x as usize, end_y as usize))
        } else {
            self.set_turn(mover_turn.other());
            None
        }
    }
}

/// A coordinate as the validator takes it. Every value that names no row or
/// column of the board becomes 8, which names none either.
fn board_coordinate(v: usize) -> (r: i32)
    ensures
        r == board_coordinate_of(v),
{
    if v < 8 {
        v as i32
    } else {
        8
    }
}

impl ChessGame {
    /// Makes a move if it is legal, and refuses it with its reason, leaving the
    /// game as it was, if it is not. After a legal move the turn has passed to
    /// the other side, unless the move took a pawn to the far row: then the
    /// result holds that square, as row and column, and the turn stays until
    /// the promotion has been resolved and the caller passes it on.
    pub fn make_move(&mut self, start_x: usize, start_y: usize, end_x: usize, end_y: usize) -> (r:
        Result<Option<Vec<usize>>, MoveError>)
        ensures
            match verdict(
                old(self)@,
                start_x as int,
                start_y as int,
                end_x as int,
                end_y as int,
            ) {
                Ok(_) => {
                    &&& r is Ok
                    &&& final(self)@ == apply_move(
                        old(self)@,
                        start_x as int,
                        start_y as int,
                        end_x as int,
                        end_y as int,
                        false,
                    )
                    &&& !in_check(final(self)@.squares, old(self)@.turn)
                    &&& match r->Ok_0 {
                        Some(square) => square@ == seq![end_x, end_y] && pending_promotion(
                            old(self)@,
                            start_x as int,
                            start_y as int,
                            end_x as int,
                            end_y as int,
                        ) is Some,
                        None => pending_promotion(
                            old(self)@,
                            start_x as int,
                            start_y as int,
                            end_x as int,
                            end_y as int,
                        ) is None,
                    }
                },
                Err(reason) => r == Err::<Option<Vec<usize>>, MoveError>(reason) && final(self)@
                    == old(self)@,
            },
    {
        let sx: i32 = board_coordinate(start_x);
        let sy: i32 = board_coordinate(start_y);
        let ex: i32 = board_coordinate(end_x);
        let ey: i32 = board_coordinate(end_y);
        if let Err(reason) = self.validate_move(sx, sy, ex, ey) {
            return Err(reason);
        }
        match self.make_move_internal(sx, sy, ex, ey, false) {
            Some(_) => {
                let mut square: Vec<usize> = Vec::new();
                square.push(end_x);
                square.push(end_y);
                assert(square@ =~= seq![end_x, end_y]);
                Ok(Some(square))
            },
            None => Ok(None),
        }
    }

    /// The legal destinations of the piece at row `x`, column `y`, in row-major
    /// order, each as its row followed by its column. The list is empty for an
    /// empty square, for a piece of the side that is not to move, and for
    /// coordinates outside the board.
    pub fn get_moves(&self, x: usize, y: usize) -> (moves: Vec<usize>)
        ensures
            moves@ == legal_destinations(self@, x as int, y as int),
    {
        let mut moves: Vec<usize> = Vec::new();
        let sx: i32 = board_coordinate(x);
        let sy: i32 = board_coordinate(y);
        let mut i: usize = 0;
        while i < 8
            invariant
                i <= 8,
                sx == board_coordinate_of(x),
                sy == board_coordinate_of(y),
                moves@ == destinations_upto(self@, x as int, y as int, 8 * i),
            decreases 8 - i,
        {
            let mut j: usize = 0;
            while j < 8
                invariant
                    i < 8,
                    j <= 8,
                    sx == board_coordinate_of(x),
                    sy == board_coordinate_of(y),
                    moves@ == destinations_upto(self@, x as int, y as int, 8 * i + j),
                decreases 8 - j,
            {
                if self.is_valid_move(sx, sy, i as i32, j as i32) {
                    moves.push(i);
                    moves.push(j);
                }
                j += 1;
            }
            i += 1;
        }
        moves
    }

    /// Whether the side to move has a legal move: whether some square holds a
    /// piece of that side with at least one legal destination.
    pub fn legal_move_exists(&self) -> (r: bool)
        ensures
            r == has_legal_move(self@),
    {
        let turn: Color = self.turn();
        let mut x: usize = 0;
        while x < 8
            invariant
                x <= 8,
                turn == self@.turn,
                forall|sr: int, sc: int, er: int, ec: int|
                    sr < x ==> !#[trigger] legal_move(self@, sr, sc, er, ec),
            decreases 8 - x,
        {
            let mut y: usize = 0;
            while y < 8
                invariant
                    x < 8,
                    y <= 8,
                    turn == self@.turn,
                    forall|sr: int, sc: int, er: int, ec: int|
                        sr < x || (sr == x && sc < y) ==> !#[trigger] legal_move(
                            self@,
                            sr,
                            sc,
                            er,
                            ec,
                        ),
                decreases 8 - y,
            {
                let own: bool = match self.piece_on(x as i32, y as i32) {
                    Some(piece) => piece.color == turn,
                    None => false,
                };
                if own {
                    let moves: Vec<usize> = self.get_moves(x, y);
                    proof {
                        lemma_destinations_exact(self@, x as int, y as int, 64);
                    }
                    if moves.len() > 0 {
                        assert(legal_move(
                            self@,
                            x as int,
                            y as int,
                            moves@[2 * 0int] as int,
                            moves@[1] as int,
                        ));
                        return true;
                    }
                    assert forall|er: int, ec: int|
                        !#[trigger] legal_move(self@, x as int, y as int, er, ec) by {
                        if legal_move(self@, x as int, y as int, er, ec) {
                            assert(on_board(er, ec) && 8 * er + ec < 64);
                        }
                    }
                }
                y += 1;
            }
            x += 1;
        }
        false
    }

    /// The square of the king of the side to move, as row and column; an empty
    /// list if that side has no king on the board.
    pub fn get_king_position(&self) -> (r: Vec<i32>)
        ensures
            match king_square(self@.squares, self@.turn) {
                Some((row, col)) => r@ == seq![row as i32, col as i32],
                None => r@ == Seq::<i32>::empty(),
            },
    {
        let mut position: Vec<i32> = Vec::new();
        match self.find_king(self.turn()) {
            Some((x, y)) => {
                position.push(x);
                position.push(y);
                assert(position@ =~= seq![x, y]);
            },
            None => {},
        }
        position
    }

    /// Whether the side to move is checkmated: in check, and without a legal
    /// move.
    pub fn checkmate(&self) -> (r: bool)
        ensures
            r == is_checkmate(self@),
    {
        if !self.check() {
            return false;
        }
        !self.legal_move_exists()
    }

    /// Code of the side to move: 1 for White, 2 for Black.
    pub fn get_current_turn(&self) -> (r: i32)
        ensures
            r == self@.turn.code(),
    {
        self.turn().to_code()
    }

    /// Passes the turn to the other side. Nothing else changes.
    pub fn change_turn(&mut self)
        ensures
            final(self)@ == (Position { turn: old(self)@.turn.opposite(), ..old(self)@ }),
    {
        let next: Color = self.turn().other();
        self.set_turn(next);
    }

    /// Whether the side to move is in check.
    pub fn check(&self) -> (r: bool)
        ensures
            r == in_check(self@.squares, self@.turn),
    {
        self.is_check(self.turn().to_code())
    }

    /// Whether the side to move still holds its kingside castling right.
    pub fn can_castle_kingside(&self) -> (r: bool)
        ensures
            r == self@.castling_right(self@.turn, true),
    {
        self.castling_right(self.turn(), true)
    }

    /// Whether the side to move is stalemated: not in check, and without a
    /// legal move.
    pub fn is_stalemate(&self) -> (r: bool)
        ensures
            r == is_stalemate(self@),
    {
        if self.check() {
            return false;
        }
        !self.legal_move_exists()
    }

    /// Replaces the pawn at row `x`, column `y` by the piece with code
    /// `new_piece`. The pawn must stand on the far row of its color, and the
    /// piece must be a rook, knight, bishop or queen of the pawn's color. A
    /// refused promotion leaves the game as it was. The turn is not touched
    /// either way.
    pub fn promote_pawn(&mut self, x: usize, y: usize, new_piece: i32) -> (r: Result<
        (),
        PromotionError,
    >)
        ensures
            match promotion_check(old(self)@, x as int, y as int, new_piece as int) {
                Ok(chosen) => r is Ok && final(self)@ == (Position {
                    squares: with_square(old(self)@.squares, x as int, y as int, Some(chosen)),
                    ..old(self)@
                }),
                Err(reason) => r == Err::<(), PromotionError>(reason) && final(self)@ == old(
                    self,
                )@,
            },
    {
        if x > 7 || y > 7 {
            return Err(PromotionError::OutOfBounds);
        }
        let pawn: Piece = match self.piece_on(x as i32, y as i32) {
            Some(piece) => piece,
            None => {
                return Err(PromotionError::NoPawn);
            },
        };
        if pawn.kind != PieceKind::Pawn {
            return Err(PromotionError::NoPawn);
        }
        if x as i32 != pawn.color.promotion_row() {
            return Err(PromotionError::NotOnPromotionRank);
        }
        let chosen: Piece = match Piece::from_code(new_piece) {
            Some(piece) => piece,
            None => {
                return Err(PromotionError::InvalidPiece);
            },
        };
        let promotable: bool = match chosen.kind {
            PieceKind::Rook | PieceKind::Knight | PieceKind::Bishop | PieceKind::Queen => true,
            _ => false,
        };
        if !promotable || chosen.color != pawn.color {
            return Err(PromotionError::InvalidPiece);
        }
        self.set_square(x as i32, y as i32, Some(chosen));
        Ok(())
    }
}

/// The coordinate that `board_coordinate` gives.
pub open spec fn board_coordinate_of(v: usize) -> int {
    if v < 8 {
        v as int
    } else {
        8
    }
}

} // verus!
