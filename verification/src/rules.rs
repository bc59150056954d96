//! The rules of chess over the mathematical model: attack, check, the
//! mechanics of a move, and legality.

use vstd::prelude::*;
use crate::piece::{Color, Piece, PieceKind};
use crate::position::{Position, Squares, holds_color, on_board, piece_at, with_square};
use crate::utils::{bishop_shape, gap, king_shape, knight_shape, queen_shape, rook_shape};

verus! {

/// Why a proposed move is refused.
#[derive(Clone, Copy, PartialEq, Eq, Structural, Debug)]
pub enum MoveError {
    /// The start square is empty or lies outside the board.
    NoPiece,
    /// The piece on the start square belongs to the side that is not to move.
    WrongTurn,
    /// The piece cannot move in this way at all.
    InvalidShape,
    /// The shape is right, but a piece stands in the way.
    BlockedPath,
    /// The move would leave, or take, the mover's king into check.
    LeavesKingInCheck,
}

// ---------------------------------------------------------------------------
// Path clearance
// ---------------------------------------------------------------------------

/// The coordinate `k` steps from `from` in the direction of `to`.
pub open spec fn toward(from: int, to: int, k: int) -> int {
    if to > from {
        from + k
    } else if to < from {
        from - k
    } else {
        from
    }
}

/// Number of steps of a straight or diagonal move.
pub open spec fn span(sr: int, sc: int, er: int, ec: int) -> int {
    if gap(er, sr) >= gap(ec, sc) {
        gap(er, sr)
    } else {
        gap(ec, sc)
    }
}

/// Whether a move runs along a row, a column or a diagonal.
pub open spec fn is_line(sr: int, sc: int, er: int, ec: int) -> bool {
    queen_shape(er - sr, ec - sc)
}

/// Every square strictly between start and end is empty. Meant for moves along
/// a line; the step direction is the sign of each coordinate change.
pub open spec fn path_clear(b: Squares, sr: int, sc: int, er: int, ec: int) -> bool {
    forall|k: int|
        1 <= k < span(sr, sc, er, ec) ==> (#[trigger] piece_at(
            b,
            toward(sr, er, k),
            toward(sc, ec, k),
        )) is None
}

// ---------------------------------------------------------------------------
// Attack and check
// ---------------------------------------------------------------------------

/// Whether the piece on the square `(fr, fc)`, if there is one, has a capturing
/// shape onto `(tr, tc)`: a pawn by its diagonal step alone, a slider by its
/// shape and a clear path, a knight or a king by its shape. Only geometry and
/// occupancy count; whose turn it is and whose king is exposed do not.
pub open spec fn attacks_from(b: Squares, fr: int, fc: int, tr: int, tc: int) -> bool {
    match piece_at(b, fr, fc) {
        None => false,
        Some(p) => {
            let dr = tr - fr;
            let dc = tc - fc;
            match p.kind {
                PieceKind::Pawn => gap(dc, 0) == 1 && dr == p.color.forward(),
                PieceKind::Rook => rook_shape(dr, dc) && path_clear(b, fr, fc, tr, tc),
                PieceKind::Knight => knight_shape(dr, dc),
                PieceKind::Bishop => bishop_shape(dr, dc) && path_clear(b, fr, fc, tr, tc),
                PieceKind::Queen => queen_shape(dr, dc) && path_clear(b, fr, fc, tr, tc),
                PieceKind::King => king_shape(dr, dc),
            }
        },
    }
}

/// Whether `(fr, fc)` holds a piece of color `by` that attacks `(tr, tc)`.
pub open spec fn attacker_at(b: Squares, fr: int, fc: int, tr: int, tc: int, by: Color) -> bool {
    on_board(fr, fc) && holds_color(b, fr, fc, by) && attacks_from(b, fr, fc, tr, tc)
}

/// Whether some piece of color `by` attacks the square `(r, c)`. No square
/// outside the board is attacked.
pub open spec fn square_attacked(b: Squares, r: int, c: int, by: Color) -> bool {
    on_board(r, c) && exists|fr: int, fc: int| #[trigger] attacker_at(b, fr, fc, r, c, by)
}

/// Whether the square with the given index holds the king of `color`.
pub open spec fn is_king_index(b: Squares, color: Color, i: int) -> bool {
    b[i] == Some(Piece { kind: PieceKind::King, color })
}

/// Index of the first square, in row-major order from `from` on, that holds the
/// king of `color`.
pub open spec fn first_king_from(b: Squares, color: Color, from: int) -> Option<int>
    decreases 64 - from,
{
    if from < 0 || from >= 64 {
        None
    } else if is_king_index(b, color, from) {
        Some(from)
    } else {
        first_king_from(b, color, from + 1)
    }
}

/// The square of the king of `color`: the first one in row-major order, should
/// the board hold several; `None` if it holds none.
pub open spec fn king_square(b: Squares, color: Color) -> Option<(int, int)> {
    match first_king_from(b, color, 0) {
        Some(i) => Some((i / 8, i % 8)),
        None => None,
    }
}

/// Whether the king of `color` is attacked by the other side. A side without
/// a king is not in check.
pub open spec fn in_check(b: Squares, color: Color) -> bool {
    match king_square(b, color) {
        Some((r, c)) => square_attacked(b, r, c, color.opposite()),
        None => false,
    }
}

// ---------------------------------------------------------------------------
// Mechanics of a move
// ---------------------------------------------------------------------------

/// Whether the move is a pawn's diagonal step onto the en-passant target.
pub open spec fn is_en_passant_capture(p: Position, sr: int, sc: int, er: int, ec: int) -> bool {
    &&& p.at(sr, sc) matches Some(piece)
    &&& piece.kind == PieceKind::Pawn
    &&& gap(ec, sc) == 1
    &&& er - sr == piece.color.forward()
    &&& p.en_passant == Some((er, ec))
}

/// Whether the move takes a king two columns sideways.
pub open spec fn is_two_column_king_move(b: Squares, sr: int, sc: int, ec: int) -> bool {
    &&& piece_at(b, sr, sc) matches Some(piece)
    &&& piece.kind == PieceKind::King
    &&& gap(ec, sc) == 2
}

/// Column of the corner from which the rook comes when a king castles toward
/// column `ec`.
pub open spec fn rook_corner(sc: int, ec: int) -> int {
    if ec > sc {
        7
    } else {
        0
    }
}

/// Column on which that rook lands.
pub open spec fn rook_landing(sc: int, ec: int) -> int {
    if ec > sc {
        5
    } else {
        3
    }
}

/// The board after the move's mechanics, in this order: an en-passant capture
/// empties the square beside the mover's start, in the destination's column;
/// the piece goes from start to end; a king that moved two columns brings the
/// rook from the corner of its row to the square it crossed.
pub open spec fn board_after(p: Position, sr: int, sc: int, er: int, ec: int) -> Squares {
    let piece = p.at(sr, sc);
    let b1 = if is_en_passant_capture(p, sr, sc, er, ec) {
        with_square(p.squares, sr, ec, None)
    } else {
        p.squares
    };
    let b2 = with_square(with_square(b1, er, ec, piece), sr, sc, None);
    if is_two_column_king_move(p.squares, sr, sc, ec) {
        let corner = rook_corner(sc, ec);
        let rook = piece_at(b2, sr, corner);
        with_square(with_square(b2, sr, rook_landing(sc, ec), rook), sr, corner, None)
    } else {
        b2
    }
}

/// Whether the piece that leaves `(sr, sc)` takes the given castling right of
/// its own side with it: a king takes both, a rook the one of the corner it
/// leaves.
pub open spec fn revokes_right(
    mover: Piece,
    sr: int,
    sc: int,
    color: Color,
    kingside: bool,
) -> bool {
    &&& mover.color == color
    &&& match mover.kind {
        PieceKind::King => true,
        PieceKind::Rook => sr == (if color == Color::White {
            7int
        } else {
            0int
        }) && sc == (if kingside {
            7int
        } else {
            0int
        }),
        _ => false,
    }
}

/// The en-passant target after a move: the square that a pawn skipped in a
/// two-row step, and nothing after any other move.
pub open spec fn en_passant_after(mover: Piece, sr: int, sc: int, er: int) -> Option<(int, int)> {
    if mover.kind == PieceKind::Pawn && gap(er, sr) == 2 {
        Some(((sr + er) / 2, sc))
    } else {
        None
    }
}

/// The square on which a promotion is pending after a move: the destination of
/// a pawn that reached the far row of its color.
pub open spec fn pending_promotion(p: Position, sr: int, sc: int, er: int, ec: int) -> Option<
    (int, int),
> {
    match p.at(sr, sc) {
        Some(mover) => if mover.kind == PieceKind::Pawn && er == mover.color.far_row() {
            Some((er, ec))
        } else {
            None
        },
        None => None,
    }
}

/// The state after a move from an occupied square. In simulation only the
/// board changes. Otherwise the castling rights that the mover revokes are
/// cleared, the en-passant target is set anew, and the turn passes to the other
/// side unless a promotion is pending.
pub open spec fn apply_move(
    p: Position,
    sr: int,
    sc: int,
    er: int,
    ec: int,
    simulate: bool,
) -> Position {
    let squares = board_after(p, sr, sc, er, ec);
    if simulate || p.at(sr, sc) is None {
        Position { squares, ..p }
    } else {
        let mover = p.at(sr, sc)->0;
        Position {
            squares,
            turn: if pending_promotion(p, sr, sc, er, ec) is Some {
                p.turn
            } else {
                p.turn.opposite()
            },
            white_kingside: p.white_kingside && !revokes_right(mover, sr, sc, Color::White, true),
            white_queenside: p.white_queenside && !revokes_right(
                mover,
                sr,
                sc,
                Color::White,
                false,
            ),
            black_kingside: p.black_kingside && !revokes_right(mover, sr, sc, Color::Black, true),
            black_queenside: p.black_queenside && !revokes_right(
                mover,
                sr,
                sc,
                Color::Black,
                false,
            ),
            en_passant: en_passant_after(mover, sr, sc, er),
        }
    }
}

// ---------------------------------------------------------------------------
// Legality
// ---------------------------------------------------------------------------

/// Whether the move has a shape that the piece may take in this state. For a
/// pawn: one row forward; two rows forward from its home row; or one step
/// diagonally forward onto an enemy piece or onto the en-passant target. For a
/// king: one step, or two columns along its row while it holds the castling
/// right of that side.
pub open spec fn shape_ok(p: Position, piece: Piece, sr: int, sc: int, er: int, ec: int) -> bool {
    let dr = er - sr;
    let dc = ec - sc;
    match piece.kind {
        PieceKind::Pawn => {
            let fwd = piece.color.forward();
            if dc == 0 {
                dr == fwd || (dr == 2 * fwd && sr == piece.color.home_row())
            } else {
                &&& gap(dc, 0) == 1
                &&& dr == fwd
                &&& (holds_color(p.squares, er, ec, piece.color.opposite()) || (p.at(er, ec) is None
                    && p.en_passant == Some((er, ec))))
            }
        },
        PieceKind::Rook => rook_shape(dr, dc),
        PieceKind::Knight => knight_shape(dr, dc),
        PieceKind::Bishop => bishop_shape(dr, dc),
        PieceKind::Queen => queen_shape(dr, dc),
        PieceKind::King => king_shape(dr, dc) || (dr == 0 && gap(dc, 0) == 2 && p.castling_right(
            piece.color,
            dc > 0,
        )),
    }
}

/// Every square strictly between the king's column and the corner of its row,
/// on the side toward which it castles, is empty.
pub open spec fn castling_lane_clear(b: Squares, row: int, sc: int, kingside: bool) -> bool {
    forall|c: int|
        (if kingside {
            sc < c < 7
        } else {
            0 < c < sc
        }) ==> (#[trigger] piece_at(b, row, c)) is None
}

/// Whether nothing stands in the way of a move of the right shape: a pawn
/// moving forward needs an empty destination and, for two rows, an empty
/// square in between; a slider needs a clear path; a castling king needs an
/// empty lane up to the rook's corner.
pub open spec fn unobstructed(b: Squares, piece: Piece, sr: int, sc: int, er: int, ec: int) -> bool {
    match piece.kind {
        PieceKind::Pawn => ec == sc ==> {
            &&& piece_at(b, er, ec) is None
            &&& gap(er, sr) == 2 ==> piece_at(b, sr + piece.color.forward(), sc) is None
        },
        PieceKind::Rook | PieceKind::Bishop | PieceKind::Queen => path_clear(b, sr, sc, er, ec),
        PieceKind::Knight => true,
        PieceKind::King => gap(ec, sc) == 2 ==> castling_lane_clear(b, sr, sc, ec > sc),
    }
}

/// Whether a castling king stays clear of attack on its way: its side is not
/// in check, and neither the square it stands on, nor the one it crosses, nor
/// the one it lands on is attacked by the other side.
pub open spec fn castling_safe(b: Squares, color: Color, sr: int, sc: int, ec: int) -> bool {
    &&& !in_check(b, color)
    &&& !square_attacked(b, sr, sc, color.opposite())
    &&& !square_attacked(b, sr, toward(sc, ec, 1), color.opposite())
    &&& !square_attacked(b, sr, ec, color.opposite())
}

/// Whether the move keeps the mover's king out of check: a castling king passes
/// no attacked square, and on the board after the move the mover's side is not
/// in check.
pub open spec fn king_safe(p: Position, piece: Piece, sr: int, sc: int, er: int, ec: int) -> bool {
    &&& (piece.kind == PieceKind::King && gap(ec, sc) == 2) ==> castling_safe(
        p.squares,
        piece.color,
        sr,
        sc,
        ec,
    )
    &&& !in_check(board_after(p, sr, sc, er, ec), piece.color)
}

/// What the movement rules of its kind say of a piece's move: no shape, a
/// blocked way, or nothing against it.
pub open spec fn movement_check(
    p: Position,
    piece: Piece,
    sr: int,
    sc: int,
    er: int,
    ec: int,
) -> Result<(), MoveError> {
    if !shape_ok(p, piece, sr, sc, er, ec) {
        Err(MoveError::InvalidShape)
    } else if !unobstructed(p.squares, piece, sr, sc, er, ec) {
        Err(MoveError::BlockedPath)
    } else {
        Ok(())
    }
}

/// What the movement rules say of a king's move, castling included: as
/// `movement_check`, and a king may not castle out of, through or into an
/// attack.
pub open spec fn king_movement_check(
    p: Position,
    color: Color,
    sr: int,
    sc: int,
    er: int,
    ec: int,
) -> Result<(), MoveError> {
    let king = Piece { kind: PieceKind::King, color };
    match movement_check(p, king, sr, sc, er, ec) {
        Err(e) => Err(e),
        Ok(_) => if gap(ec, sc) == 2 && !castling_safe(p.squares, color, sr, sc, ec) {
            Err(MoveError::LeavesKingInCheck)
        } else {
            Ok(())
        },
    }
}

/// Whether the move from `(sr, sc)` to `(er, ec)` is legal in state `p`.
pub open spec fn legal_move(p: Position, sr: int, sc: int, er: int, ec: int) -> bool {
    &&& on_board(sr, sc)
    &&& on_board(er, ec)
    &&& (sr != er || sc != ec)
    &&& p.at(sr, sc) matches Some(piece)
    &&& piece.color == p.turn
    &&& !holds_color(p.squares, er, ec, piece.color)
    &&& shape_ok(p, piece, sr, sc, er, ec)
    &&& unobstructed(p.squares, piece, sr, sc, er, ec)
    &&& king_safe(p, piece, sr, sc, er, ec)
}

/// The reason for which an illegal move is refused: that of the first test, in
/// the order of `legal_move`, that the move fails. A square outside the board
/// holds no piece; a destination outside the board, or equal to the start, is
/// no shape; a destination held by the mover's own side is blocked.
pub open spec fn rejection(p: Position, sr: int, sc: int, er: int, ec: int) -> MoveError {
    match p.at(sr, sc) {
        None => MoveError::NoPiece,
        Some(piece) => if piece.color != p.turn {
            MoveError::WrongTurn
        } else if !on_board(er, ec) || (sr == er && sc == ec) {
            MoveError::InvalidShape
        } else if holds_color(p.squares, er, ec, piece.color) {
            MoveError::BlockedPath
        } else if !shape_ok(p, piece, sr, sc, er, ec) {
            MoveError::InvalidShape
        } else if !unobstructed(p.squares, piece, sr, sc, er, ec) {
            MoveError::BlockedPath
        } else {
            MoveError::LeavesKingInCheck
        },
    }
}

/// The validator's answer to a proposed move: nothing against a legal move,
/// and the reason of its refusal against any other.
pub open spec fn verdict(p: Position, sr: int, sc: int, er: int, ec: int) -> Result<
    (),
    MoveError,
> {
    if legal_move(p, sr, sc, er, ec) {
        Ok(())
    } else {
        Err(rejection(p, sr, sc, er, ec))
    }
}

/// Whether the side to move has a legal move.
pub open spec fn has_legal_move(p: Position) -> bool {
    exists|sr: int, sc: int, er: int, ec: int| #[trigger] legal_move(p, sr, sc, er, ec)
}

/// Checkmate: the side to move is in check and has no legal move.
pub open spec fn is_checkmate(p: Position) -> bool {
    in_check(p.squares, p.turn) && !has_legal_move(p)
}

/// Stalemate: the side to move is not in check and has no legal move.
pub open spec fn is_stalemate(p: Position) -> bool {
    !in_check(p.squares, p.turn) && !has_legal_move(p)
}

// ---------------------------------------------------------------------------
// Legal destinations
// ---------------------------------------------------------------------------

/// The legal destinations of the piece on `(sr, sc)` among the first `n`
/// squares in row-major order, each given as its row followed by its column.
pub open spec fn destinations_upto(p: Position, sr: int, sc: int, n: int) -> Seq<usize>
    decreases n,
{
    if n <= 0 {
        Seq::empty()
    } else {
        let before = destinations_upto(p, sr, sc, n - 1);
        let er = (n - 1) / 8;
        let ec = (n - 1) % 8;
        if legal_move(p, sr, sc, er, ec) {
            before.push(er as usize).push(ec as usize)
        } else {
            before
        }
    }
}

/// All legal destinations of the piece on `(sr, sc)`, in row-major order, each
/// given as its row followed by its column.
pub open spec fn legal_destinations(p: Position, sr: int, sc: int) -> Seq<usize> {
    destinations_upto(p, sr, sc, 64)
}

/// The list of destinations holds a pair for each legal destination among the
/// first `n` squares, and nothing else: its entries at even places are rows,
/// each followed by a column, and the squares so named are exactly the legal
/// destinations.
pub proof fn lemma_destinations_exact(p: Position, sr: int, sc: int, n: int)
    requires
        0 <= n <= 64,
    ensures
        destinations_upto(p, sr, sc, n).len() % 2 == 0,
        forall|k: int|
            #![trigger destinations_upto(p, sr, sc, n)[2 * k]]
            0 <= k && 2 * k + 1 < destinations_upto(p, sr, sc, n).len() ==> {
                let er = destinations_upto(p, sr, sc, n)[2 * k] as int;
                let ec = destinations_upto(p, sr, sc, n)[2 * k + 1] as int;
                on_board(er, ec) && 8 * er + ec < n && legal_move(p, sr, sc, er, ec)
            },
        forall|er: int, ec: int|
            on_board(er, ec) && 8 * er + ec < n && #[trigger] legal_move(p, sr, sc, er, ec)
                ==> exists|k: int|
                0 <= k && 2 * k + 1 < destinations_upto(p, sr, sc, n).len()
                    && #[trigger] destinations_upto(p, sr, sc, n)[2 * k] == er
                    && destinations_upto(p, sr, sc, n)[2 * k + 1] == ec,
    decreases n,
{
    if n > 0 {
        lemma_destinations_exact(p, sr, sc, n - 1);
        let before = destinations_upto(p, sr, sc, n - 1);
        let now = destinations_upto(p, sr, sc, n);
        let lr = (n - 1) / 8;
        let lc = (n - 1) % 8;
        assert forall|k: int| #![trigger now[2 * k]] 0 <= k && 2 * k + 1 < now.len() implies {
            let er = now[2 * k] as int;
            let ec = now[2 * k + 1] as int;
            on_board(er, ec) && 8 * er + ec < n && legal_move(p, sr, sc, er, ec)
        } by {
            if 2 * k + 1 < before.len() {
                assert(now[2 * k] == before[2 * k]);
                assert(now[2 * k + 1] == before[2 * k + 1]);
            }
        }
        assert forall|er: int, ec: int|
            on_board(er, ec) && 8 * er + ec < n && #[trigger] legal_move(
                p,
                sr,
                sc,
                er,
                ec,
            ) implies exists|k: int|
            0 <= k && 2 * k + 1 < now.len() && #[trigger] now[2 * k] == er && now[2 * k + 1]
                == ec by {
            if 8 * er + ec < n - 1 {
                let k = choose|k: int|
                    0 <= k && 2 * k + 1 < before.len() && #[trigger] before[2 * k] == er
                        && before[2 * k + 1] == ec;
                assert(now[2 * k] == er && now[2 * k + 1] == ec);
            } else {
                assert(er == lr && ec == lc);
                let k = before.len() as int / 2;
                assert(now[2 * k] == er && now[2 * k + 1] == ec);
            }
        }
    }
}

// ---------------------------------------------------------------------------
// Promotion
// ---------------------------------------------------------------------------

/// Why a promotion is refused.
#[derive(Clone, Copy, PartialEq, Eq, Structural, Debug)]
pub enum PromotionError {
    /// The coordinates lie outside the board.
    OutOfBounds,
    /// The square holds no pawn.
    NoPawn,
    /// The pawn does not stand on the far row of its color.
    NotOnPromotionRank,
    /// The chosen piece is no rook, knight, bishop or queen of the pawn's color.
    InvalidPiece,
}

/// Whether a pawn may become a piece of this kind.
pub open spec fn promotable(kind: PieceKind) -> bool {
    kind == PieceKind::Rook || kind == PieceKind::Knight || kind == PieceKind::Bishop || kind
        == PieceKind::Queen
}

/// The piece that replaces the pawn on `(r, c)` when the piece with code
/// `code` is chosen, or the reason for which the promotion is refused: the
/// first, in the order of the variants of `PromotionError`, that applies.
pub open spec fn promotion_check(p: Position, r: int, c: int, code: int) -> Result<
    Piece,
    PromotionError,
> {
    if !on_board(r, c) {
        Err(PromotionError::OutOfBounds)
    } else {
        match p.at(r, c) {
            Some(pawn) if pawn.kind == PieceKind::Pawn => if r != pawn.color.far_row() {
                Err(PromotionError::NotOnPromotionRank)
            } else {
                match crate::piece::code_square(code) {
                    Some(chosen) if promotable(chosen.kind) && chosen.color == pawn.color => Ok(
                        chosen,
                    ),
                    _ => Err(PromotionError::InvalidPiece),
                }
            },
            _ => Err(PromotionError::NoPawn),
        }
    }
}

} // verus!
