//! Integer codes by which pieces and colors cross the library's boundary.
//!
//! A square is reported to the host as one integer: `0` for an empty square,
//! `1..=6` for the white pieces and `7..=12` for the black ones, each block in
//! the order pawn, rook, knight, bishop, queen, king.

use vstd::prelude::*;

verus! {

pub const W_PAWN: i32 = 1;

pub const W_ROOK: i32 = 2;

pub const W_KNIGHT: i32 = 3;

pub const W_BISHOP: i32 = 4;

pub const W_QUEEN: i32 = 5;

pub const W_KING: i32 = 6;

pub const B_PAWN: i32 = 7;

pub const B_ROOK: i32 = 8;

pub const B_KNIGHT: i32 = 9;

pub const B_BISHOP: i32 = 10;

pub const B_QUEEN: i32 = 11;

pub const B_KING: i32 = 12;

pub const WHITE: i32 = 1;

pub const BLACK: i32 = 2;

} // verus!
