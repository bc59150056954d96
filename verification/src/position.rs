//! The mathematical model of a game state.
//!
//! The board is a sequence of 64 squares in row-major order: row 0 is rank 8,
//! row 7 is rank 1, column 0 is file a. The square in row `r` and column `c`
//! stands at index `8 * r + c`.

use vstd::prelude::*;
use crate::piece::{Color, Piece, PieceKind};

verus! {

/// What the 64 squares hold.
pub type Squares = Seq<Option<Piece>>;

/// A game state: the board, the side to move, the four castling rights and the
/// en-passant target.
pub struct Position {
    pub squares: Squares,
    pub turn: Color,
    pub white_kingside: bool,
    pub white_queenside: bool,
    pub black_kingside: bool,
    pub black_queenside: bool,
    pub en_passant: Option<(int, int)>,
}

/// Whether row `r` and column `c` name a square of the board.
pub open spec fn on_board(r: int, c: int) -> bool {
    0 <= r < 8 && 0 <= c < 8
}

/// Index of a square in the row-major sequence.
pub open spec fn square_index(r: int, c: int) -> int {
    8 * r + c
}

/// What the square at row `r`, column `c` holds. Coordinates outside the board
/// name no square, and read as empty.
pub open spec fn piece_at(b: Squares, r: int, c: int) -> Option<Piece> {
    if on_board(r, c) {
        b[square_index(r, c)]
    } else {
        None
    }
}

/// Whether the square holds a piece of the given color.
pub open spec fn holds_color(b: Squares, r: int, c: int, color: Color) -> bool {
    piece_at(b, r, c) matches Some(p) && p.color == color
}

/// The board with the content of one square replaced.
pub open spec fn with_square(b: Squares, r: int, c: int, content: Option<Piece>) -> Squares {
    b.update(square_index(r, c), content)
}

/// The board with no piece on it.
pub open spec fn empty_board() -> Squares {
    Seq::new(64, |i: int| None::<Piece>)
}

/// The kind of piece that starts in column `c` of a side's back row.
pub open spec fn back_row_kind(c: int) -> PieceKind {
    if c == 0 || c == 7 {
        PieceKind::Rook
    } else if c == 1 || c == 6 {
        PieceKind::Knight
    } else if c == 2 || c == 5 {
        PieceKind::Bishop
    } else if c == 3 {
        PieceKind::Queen
    } else {
        PieceKind::King
    }
}

/// What the square at row `r`, column `c` holds when a game starts.
pub open spec fn opening_square(r: int, c: int) -> Option<Piece> {
    if r == 0 {
        Some(Piece { kind: back_row_kind(c), color: Color::Black })
    } else if r == 1 {
        Some(Piece { kind: PieceKind::Pawn, color: Color::Black })
    } else if r == 6 {
        Some(Piece { kind: PieceKind::Pawn, color: Color::White })
    } else if r == 7 {
        Some(Piece { kind: back_row_kind(c), color: Color::White })
    } else {
        None
    }
}

/// The standard opening position: White to move, every castling right held,
/// no en-passant target.
pub open spec fn opening_position() -> Position {
    Position {
        squares: Seq::new(64, |i: int| opening_square(i / 8, i % 8)),
        turn: Color::White,
        white_kingside: true,
        white_queenside: true,
        black_kingside: true,
        black_queenside: true,
        en_passant: None,
    }
}

impl Position {
    /// A well-formed state has 64 squares, and its en-passant target, if it has
    /// one, is a square of the board.
    pub open spec fn wf(self) -> bool {
        &&& self.squares.len() == 64
        &&& self.en_passant matches Some((r, c)) ==> on_board(r, c)
    }

    /// What the square at row `r`, column `c` holds.
    pub open spec fn at(self, r: int, c: int) -> Option<Piece> {
        piece_at(self.squares, r, c)
    }

    /// Whether `color` still holds the right to castle on the given side.
    pub open spec fn castling_right(self, color: Color, kingside: bool) -> bool {
        match color {
            Color::White => if kingside {
                self.white_kingside
            } else {
                self.white_queenside
            },
            Color::Black => if kingside {
                self.black_kingside
            } else {
                self.black_queenside
            },
        }
    }
}

} // verus!
