//! Attack detection and the move legality validator.

use vstd::prelude::*;
use crate::game::ChessGame;
use crate::piece::{Color, Piece, PieceKind};
use crate::position::{on_board, piece_at};
use crate::rules::{
    MoveError,
    attacker_at,
    attacks_from,
    castling_lane_clear,
    first_king_from,
    in_check,
    is_en_passant_capture,
    is_king_index,
    is_line,
    king_movement_check,
    king_square,
    legal_move,
    movement_check,
    path_clear,
    span,
    square_attacked,
    toward,
    verdict,
};
use crate::utils::{
    delta,
    is_valid_bishop_move,
    is_valid_king_move,
    is_valid_knight_move,
    is_valid_queen_move,
    is_valid_rook_move,
};

verus! {

/// Sign of the change from `from` to `to`: -1, 0 or 1.
fn step_toward(from: i32, to: i32) -> (s: i32)
    ensures
        s == toward(0, to - from, 1),
{
    if to > from {
        1
    } else if to < from {
        -1
    } else {
        0
    }
}

impl ChessGame {
    /// Path clearance for a move along a row, a column or a diagonal: whether
    /// every square strictly between start and end is empty.
    pub fn is_path_clear(&self, start_x: i32, start_y: i32, end_x: i32, end_y: i32) -> (r: bool)
        requires
            on_board(start_x as int, start_y as int),
            on_board(end_x as int, end_y as int),
            is_line(start_x as int, start_y as int, end_x as int, end_y as int),
        ensures
            r == path_clear(
                self@.squares,
                start_x as int,
                start_y as int,
                end_x as int,
                end_y as int,
            ),
    {
        let step_x: i32 = step_toward(start_x, end_x);
        let step_y: i32 = step_toward(start_y, end_y);
        let mut current_x: i32 = start_x + step_x;
        let mut current_y: i32 = start_y + step_y;
        let ghost mut k: int = 1;
        while current_x != end_x || current_y != end_y
            invariant
                on_board(start_x as int, start_y as int),
                on_board(end_x as int, end_y as int),
                is_line(start_x as int, start_y as int, end_x as int, end_y as int),
                step_x == toward(0, end_x - start_x, 1),
                step_y == toward(0, end_y - start_y, 1),
                1 <= k <= span(start_x as int, start_y as int, end_x as int, end_y as int),
                current_x == toward(start_x as int, end_x as int, k),
                current_y == toward(start_y as int, end_y as int, k),
                forall|j: int|
                    1 <= j < k ==> (#[trigger] piece_at(
                        self@.squares,
                        toward(start_x as int, end_x as int, j),
                        toward(start_y as int, end_y as int, j),
                    )) is None,
            decreases span(start_x as int, start_y as int, end_x as int, end_y as int) - k,
        {
            if self.piece_on(current_x, current_y).is_some() {
                return false;
            }
            current_x += step_x;
            current_y += step_y;
            proof {
                k = k + 1;
            }
        }
        true
    }

    /// Whether the piece on the start square, if there is one, has a capturing
    /// shape onto the end square, with a clear path where it slides. The test
    /// is one of geometry and occupancy alone: it never asks whether a move
    /// would be legal.
    pub fn is_valid_move_shape_and_obstruction(
        &self,
        start_x: i32,
        start_y: i32,
        end_x: i32,
        end_y: i32,
    ) -> (r: bool)
        ensures
            r == (on_board(start_x as int, start_y as int) && on_board(end_x as int, end_y as int)
                && attacks_from(
                self@.squares,
                start_x as int,
                start_y as int,
                end_x as int,
                end_y as int,
            )),
    {
        if !Self::is_on_board(start_x, start_y) || !Self::is_on_board(end_x, end_y) {
            return false;
        }
        match self.piece_on(start_x, start_y) {
            None => false,
            Some(piece) => match piece.kind {
                PieceKind::Pawn => {
                    let dx: i32 = end_x - start_x;
                    let dy: i32 = end_y - start_y;
                    (dy == 1 || dy == -1) && dx == piece.color.pawn_direction()
                },
                PieceKind::Rook => is_valid_rook_move(start_x, start_y, end_x, end_y)
                    && self.is_path_clear(start_x, start_y, end_x, end_y),
                PieceKind::Knight => is_valid_knight_move(start_x, start_y, end_x, end_y),
                PieceKind::Bishop => is_valid_bishop_move(start_x, start_y, end_x, end_y)
                    && self.is_path_clear(start_x, start_y, end_x, end_y),
                PieceKind::Queen => is_valid_queen_move(start_x, start_y, end_x, end_y)
                    && self.is_path_clear(start_x, start_y, end_x, end_y),
                PieceKind::King => is_valid_king_move(start_x, start_y, end_x, end_y),
            },
        }
    }

    /// Whether some piece of `attacker_color` attacks the target square: the
    /// result of going through all 64 squares and asking of each piece of that
    /// color whether it has a capturing shape onto the target.
    pub fn is_square_attacked(&self, target_x: i32, target_y: i32, attacker_color: Color) -> (r:
        bool)
        ensures
            r == square_attacked(self@.squares, target_x as int, target_y as int, attacker_color),
    {
        if !Self::is_on_board(target_x, target_y) {
            return false;
        }
        let mut x: i32 = 0;
        while x < 8
            invariant
                0 <= x <= 8,
                on_board(target_x as int, target_y as int),
                forall|fr: int, fc: int|
                    fr < x ==> !#[trigger] attacker_at(
                        self@.squares,
                        fr,
                        fc,
                        target_x as int,
                        target_y as int,
                        attacker_color,
                    ),
            decreases 8 - x,
        {
            let mut y: i32 = 0;
            while y < 8
                invariant
                    0 <= x < 8,
                    0 <= y <= 8,
                    on_board(target_x as int, target_y as int),
                    forall|fr: int, fc: int|
                        fr < x || (fr == x && fc < y) ==> !#[trigger] attacker_at(
                            self@.squares,
                            fr,
                            fc,
                            target_x as int,
                            target_y as int,
                            attacker_color,
                        ),
                decreases 8 - y,
            {
                let held: bool = match self.piece_on(x, y) {
                    Some(piece) => piece.color == attacker_color,
                    None => false,
                };
                if held && self.is_valid_move_shape_and_obstruction(x, y, target_x, target_y) {
                    assert(attacker_at(
                        self@.squares,
                        x as int,
                        y as int,
                        target_x as int,
                        target_y as int,
                        attacker_color,
                    ));
                    return true;
                }
                y += 1;
            }
            x += 1;
        }
        false
    }

    /// Whether the move is a pawn's diagonal step onto the en-passant target.
    pub fn is_en_passant_move(&self, start_x: i32, start_y: i32, end_x: i32, end_y: i32) -> (r:
        bool)
        ensures
            r == is_en_passant_capture(
                self@,
                start_x as int,
                start_y as int,
                end_x as int,
                end_y as int,
            ),
    {
        let target: (usize, usize) = match self.en_passant() {
            Some(square) => square,
            None => {
                return false;
            },
        };
        match self.piece_on(start_x, start_y) {
            Some(piece) => {
                let dy: i64 = delta(start_y, end_y);
                piece.kind == PieceKind::Pawn && (dy == 1 || dy == -1) && delta(start_x, end_x)
                    == piece.color.pawn_direction() as i64 && end_x >= 0 && end_y >= 0
                    && end_x as usize == target.0 && end_y as usize == target.1
            },
            None => false,
        }
    }

    /// The square of the king of `color`: the first in row-major order.
    pub fn find_king(&self, color: Color) -> (r: Option<(i32, i32)>)
        ensures
            match r {
                Some((x, y)) => king_square(self@.squares, color) == Some((x as int, y as int))
                    && on_board(x as int, y as int),
                None => king_square(self@.squares, color) is None,
            },
    {
        let mut x: i32 = 0;
        while x < 8
            invariant
                0 <= x <= 8,
                first_king_from(self@.squares, color, 0) == first_king_from(
                    self@.squares,
                    color,
                    8 * x,
                ),
            decreases 8 - x,
        {
            let mut y: i32 = 0;
            while y < 8
                invariant
                    0 <= x < 8,
                    0 <= y <= 8,
                    first_king_from(self@.squares, color, 0) == first_king_from(
                        self@.squares,
                        color,
                        8 * x + y,
                    ),
                decreases 8 - y,
            {
                let found: bool = match self.piece_on(x, y) {
                    Some(piece) => piece.kind == PieceKind::King && piece.color == color,
                    None => false,
                };
                assert(found == is_king_index(self@.squares, color, 8 * x + y));
                if found {
                    return Some((x, y));
                }
                y += 1;
            }
            x += 1;
        }
        None
    }

    /// Whether the king of the given color (1 for White, any other code for
    /// Black) is attacked by the other side. A side whose king is missing from
    /// the board is reported as not in check.
    pub fn is_check(&self, color: i32) -> (r: bool)
        ensures
            r == in_check(self@.squares, Color::of_code(color as int)),
    {
        let side: Color = Color::from_code(color);
        match self.find_king(side) {
            Some((king_x, king_y)) => self.is_square_attacked(king_x, king_y, side.other()),
            None => false,
        }
    }
}

impl ChessGame {
    /// The movement rules of the pawn: one row forward onto an empty square;
    /// two rows forward from the home row over an empty square onto an empty
    /// square; one step diagonally forward onto an enemy piece or onto the
    /// en-passant target.
    pub fn is_valid_pawn_move_detailed(
        &self,
        start_x: i32,
        start_y: i32,
        end_x: i32,
        end_y: i32,
        piece_color: Color,
    ) -> (r: Result<(), MoveError>)
        requires
            on_board(start_x as int, start_y as int),
            on_board(end_x as int, end_y as int),
        ensures
            r == movement_check(
                self@,
                Piece { kind: PieceKind::Pawn, color: piece_color },
                start_x as int,
                start_y as int,
                end_x as int,
                end_y as int,
            ),
    {
        let dx: i32 = end_x - start_x;
        let dy: i32 = end_y - start_y;
        let expected_dx: i32 = piece_color.pawn_direction();
        let ending_piece: Option<Piece> = self.piece_on(end_x, end_y);
        if dy == 0 {
            if dx == expected_dx {
                if ending_piece.is_some() {
                    return Err(MoveError::BlockedPath);
                }
                return Ok(());
            }
            if dx == expected_dx * 2 && start_x == piece_color.pawn_home_row() {
                if ending_piece.is_some() {
                    return Err(MoveError::BlockedPath);
                }
                let middle_x: i32 = start_x + expected_dx;
                if self.piece_on(middle_x, start_y).is_some() {
                    return Err(MoveError::BlockedPath);
                }
                return Ok(());
            }
            Err(MoveError::InvalidShape)
        } else if dy == 1 || dy == -1 {
            if dx != expected_dx {
                return Err(MoveError::InvalidShape);
            }
            match ending_piece {
                Some(target) => if target.color != piece_color {
                    Ok(())
                } else {
                    Err(MoveError::InvalidShape)
                },
                None => match self.en_passant() {
                    Some((row, col)) => if row == end_x as usize && col == end_y as usize {
                        Ok(())
                    } else {
                        Err(MoveError::InvalidShape)
                    },
                    None => Err(MoveError::InvalidShape),
                },
            }
        } else {
            Err(MoveError::InvalidShape)
        }
    }

    /// Whether every square strictly between the king's column and the corner
    /// of its row, on the side named, is empty.
    pub fn is_castling_lane_clear(&self, row: i32, king_y: i32, kingside: bool) -> (r: bool)
        requires
            on_board(row as int, king_y as int),
        ensures
            r == castling_lane_clear(self@.squares, row as int, king_y as int, kingside),
    {
        let first: i32 = if kingside {
            king_y + 1
        } else {
            1
        };
        let limit: i32 = if kingside {
            7
        } else {
            king_y
        };
        let mut y: i32 = first;
        while y < limit
            invariant
                0 <= row < 8,
                1 <= first <= y,
                limit <= 7,
                first == (if kingside {
                    king_y + 1
                } else {
                    1int
                }),
                limit == (if kingside {
                    7int
                } else {
                    king_y as int
                }),
                forall|c: int|
                    first <= c < y ==> (#[trigger] piece_at(self@.squares, row as int, c)) is None,
            decreases limit - y,
        {
            if self.piece_on(row, y).is_some() {
                return false;
            }
            y += 1;
        }
        true
    }

    /// The movement rules of the king: one step in any direction, or castling.
    /// A king castles by moving two columns along its row. It must hold the
    /// castling right of that side, the lane to the rook's corner must be
    /// empty, its side must not be in check, and neither its own square, nor
    /// the one it crosses, nor the one it lands on may be attacked.
    pub fn is_valid_king_move_detailed(
        &self,
        start_x: i32,
        start_y: i32,
        end_x: i32,
        end_y: i32,
        piece_color: Color,
    ) -> (r: Result<(), MoveError>)
        requires
            on_board(start_x as int, start_y as int),
            on_board(end_x as int, end_y as int),
        ensures
            r == king_movement_check(
                self@,
                piece_color,
                start_x as int,
                start_y as int,
                end_x as int,
                end_y as int,
            ),
    {
        let dx: i32 = end_x - start_x;
        let dy: i32 = end_y - start_y;
        if dx == 0 && dy == 0 {
            return Err(MoveError::InvalidShape);
        }
        if -1 <= dx && dx <= 1 && -1 <= dy && dy <= 1 {
            return Ok(());
        }
        if dx == 0 && (dy == 2 || dy == -2) {
            let kingside: bool = end_y > start_y;
            if !self.castling_right(piece_color, kingside) {
                return Err(MoveError::InvalidShape);
            }
            if !self.is_castling_lane_clear(start_x, start_y, kingside) {
                return Err(MoveError::BlockedPath);
            }
            let opponent_color: Color = piece_color.other();
            let crossed_y: i32 = if kingside {
                start_y + 1
            } else {
                start_y - 1
            };
            if self.is_check(piece_color.to_code()) || self.is_square_attacked(
                start_x,
                start_y,
                opponent_color,
            ) || self.is_square_attacked(start_x, crossed_y, opponent_color)
                || self.is_square_attacked(start_x, end_y, opponent_color) {
                return Err(MoveError::LeavesKingInCheck);
            }
            return Ok(());
        }
        Err(MoveError::InvalidShape)
    }

    /// The validator. Its tests run in this order, and the first that fails
    /// gives the reason: the start square holds a piece; the piece belongs to
    /// the side to move; the destination is another square of the board; it is
    /// not held by the mover's own side; the piece's movement rules allow the
    /// move; and, tried on a copy of the game, the move does not leave the
    /// mover's king in check. The game itself is not changed.
    pub fn validate_move(&self, start_x: i32, start_y: i32, end_x: i32, end_y: i32) -> (r: Result<
        (),
        MoveError,
    >)
        ensures
            r == verdict(self@, start_x as int, start_y as int, end_x as int, end_y as int),
    {
        let piece: Piece = match self.piece_on(start_x, start_y) {
            Some(piece) => piece,
            None => {
                return Err(MoveError::NoPiece);
            },
        };
        if piece.color != self.turn() {
            return Err(MoveError::WrongTurn);
        }
        if !Self::is_on_board(end_x, end_y) || (start_x == end_x && start_y == end_y) {
            return Err(MoveError::InvalidShape);
        }
        let own_target: bool = match self.piece_on(end_x, end_y) {
            Some(target) => target.color == piece.color,
            None => false,
        };
        if own_target {
            return Err(MoveError::BlockedPath);
        }
        let movement: Result<(), MoveError> = match piece.kind {
            PieceKind::Pawn => self.is_valid_pawn_move_detailed(
                start_x,
                start_y,
                end_x,
                end_y,
                piece.color,
            ),
            PieceKind::Rook => if !is_valid_rook_move(start_x, start_y, end_x, end_y) {
                Err(MoveError::InvalidShape)
            } else if !self.is_path_clear(start_x, start_y, end_x, end_y) {
                Err(MoveError::BlockedPath)
            } else {
                Ok(())
            },
            PieceKind::Knight => if !is_valid_knight_move(start_x, start_y, end_x, end_y) {
                Err(MoveError::InvalidShape)
            } else {
                Ok(())
            },
            PieceKind::Bishop => if !is_valid_bishop_move(start_x, start_y, end_x, end_y) {
                Err(MoveError::InvalidShape)
            } else if !self.is_path_clear(start_x, start_y, end_x, end_y) {
                Err(MoveError::BlockedPath)
            } else {
                Ok(())
            },
            PieceKind::Queen => if !is_valid_queen_move(start_x, start_y, end_x, end_y) {
                Err(MoveError::InvalidShape)
            } else if !self.is_path_clear(start_x, start_y, end_x, end_y) {
                Err(MoveError::BlockedPath)
            } else {
                Ok(())
            },
            PieceKind::King => self.is_valid_king_move_detailed(
                start_x,
                start_y,
                end_x,
                end_y,
                piece.color,
            ),
        };
        if let Err(reason) = movement {
            return Err(reason);
        }
        let mut temp_game: ChessGame = *self;
        temp_game.make_move_internal(start_x, start_y, end_x, end_y, true);
        if temp_game.is_check(piece.color.to_code()) {
            return Err(MoveError::LeavesKingInCheck);
        }
        Ok(())
    }

    /// Whether the move is legal for the side to move. Coordinates outside the
    /// board make no legal move.
    pub fn is_valid_move(&self, start_x: i32, start_y: i32, end_x: i32, end_y: i32) -> (r: bool)
        ensures
            r == legal_move(self@, start_x as int, start_y as int, end_x as int, end_y as int),
    {
        self.validate_move(start_x, start_y, end_x, end_y).is_ok()
    }
}

} // verus!
