//! Piece codes taken apart, and the shape tests of the pieces.
//!
//! A shape test looks at the row and column change of a move alone. It knows
//! nothing of the board: obstruction, capture and check are judged elsewhere.

use vstd::prelude::*;

verus! {

/// Distance between two coordinates.
pub open spec fn gap(a: int, b: int) -> int {
    if a >= b {
        a - b
    } else {
        b - a
    }
}

/// Rook: exactly one of the two changes is zero.
pub open spec fn rook_shape(dr: int, dc: int) -> bool {
    (dr != 0 && dc == 0) || (dr == 0 && dc != 0)
}

/// Bishop: both changes have the same nonzero size.
pub open spec fn bishop_shape(dr: int, dc: int) -> bool {
    gap(dr, 0) == gap(dc, 0) && dr != 0
}

/// Queen: a rook's shape or a bishop's.
pub open spec fn queen_shape(dr: int, dc: int) -> bool {
    rook_shape(dr, dc) || bishop_shape(dr, dc)
}

/// Knight: two in one direction and one in the other.
pub open spec fn knight_shape(dr: int, dc: int) -> bool {
    (gap(dr, 0) == 2 && gap(dc, 0) == 1) || (gap(dr, 0) == 1 && gap(dc, 0) == 2)
}

/// King: at most one step in each direction, and not both zero.
pub open spec fn king_shape(dr: int, dc: int) -> bool {
    gap(dr, 0) <= 1 && gap(dc, 0) <= 1 && (dr != 0 || dc != 0)
}

/// The kind number (1 to 6) of a piece code, 0 for a code that is no piece.
pub fn get_piece_type(piece: i32) -> (r: i32)
    ensures
        1 <= piece <= 6 ==> r == piece,
        7 <= piece <= 12 ==> r == piece - 6,
        !(1 <= piece <= 12) ==> r == 0,
{
    if 1 <= piece && piece <= 6 {
        piece
    } else if 7 <= piece && piece <= 12 {
        piece - 6
    } else {
        0
    }
}

/// The color code of a piece code: 1 for a white piece, 2 for a black one,
/// 0 for a code that is no piece.
pub fn get_piece_color(piece: i32) -> (r: i32)
    ensures
        1 <= piece <= 6 ==> r == 1,
        7 <= piece <= 12 ==> r == 2,
        !(1 <= piece <= 12) ==> r == 0,
{
    if 1 <= piece && piece <= 6 {
        1
    } else if 7 <= piece && piece <= 12 {
        2
    } else {
        0
    }
}

/// Signed change from `from` to `to`, wide enough for every pair of `i32`.
pub fn delta(from: i32, to: i32) -> (d: i64)
    ensures
        d == to - from,
{
    to as i64 - from as i64
}

/// Size of a change.
pub fn magnitude(d: i64) -> (m: i64)
    requires
        d > i64::MIN,
    ensures
        m == gap(d as int, 0),
{
    if d >= 0 {
        d
    } else {
        -d
    }
}

/// Rook shape: a move along a row or along a column. Obstruction is not
/// looked at.
pub fn is_valid_rook_move(start_x: i32, start_y: i32, end_x: i32, end_y: i32) -> (r: bool)
    ensures
        r == rook_shape(end_x - start_x, end_y - start_y),
{
    let dx: i64 = delta(start_x, end_x);
    let dy: i64 = delta(start_y, end_y);
    (dx != 0 && dy == 0) || (dx == 0 && dy != 0)
}

/// Knight shape: an L of two squares and one.
pub fn is_valid_knight_move(start_x: i32, start_y: i32, end_x: i32, end_y: i32) -> (r: bool)
    ensures
        r == knight_shape(end_x - start_x, end_y - start_y),
{
    let dx_abs: i64 = magnitude(delta(start_x, end_x));
    let dy_abs: i64 = magnitude(delta(start_y, end_y));
    (dx_abs == 2 && dy_abs == 1) || (dx_abs == 1 && dy_abs == 2)
}

/// Bishop shape: a move along a diagonal. Obstruction is not looked at.
pub fn is_valid_bishop_move(start_x: i32, start_y: i32, end_x: i32, end_y: i32) -> (r: bool)
    ensures
        r == bishop_shape(end_x - start_x, end_y - start_y),
{
    let dx_abs: i64 = magnitude(delta(start_x, end_x));
    let dy_abs: i64 = magnitude(delta(start_y, end_y));
    dx_abs == dy_abs && dx_abs != 0
}

/// Queen shape: a rook's move or a bishop's.
pub fn is_valid_queen_move(start_x: i32, start_y: i32, end_x: i32, end_y: i32) -> (r: bool)
    ensures
        r == queen_shape(end_x - start_x, end_y - start_y),
{
    is_valid_rook_move(start_x, start_y, end_x, end_y) || is_valid_bishop_move(
        start_x,
        start_y,
        end_x,
        end_y,
    )
}

/// King shape: one square in any direction. Castling is not a king shape.
pub fn is_valid_king_move(start_x: i32, start_y: i32, end_x: i32, end_y: i32) -> (r: bool)
    ensures
        r == king_shape(end_x - start_x, end_y - start_y),
{
    let dx_abs: i64 = magnitude(delta(start_x, end_x));
    let dy_abs: i64 = magnitude(delta(start_y, end_y));
    dx_abs <= 1 && dy_abs <= 1 && (dx_abs != 0 || dy_abs != 0)
}

} // verus!
