//! Pieces as tagged values, and their integer codes.

use vstd::prelude::*;

verus! {

/// The two sides.
#[derive(Clone, Copy, PartialEq, Eq, Structural, Debug)]
pub enum Color {
    White,
    Black,
}

/// The six kinds of chess piece.
#[derive(Clone, Copy, PartialEq, Eq, Structural, Debug)]
pub enum PieceKind {
    Pawn,
    Rook,
    Knight,
    Bishop,
    Queen,
    King,
}

/// A piece: its kind and the side it belongs to.
#[derive(Clone, Copy, PartialEq, Eq, Structural, Debug)]
pub struct Piece {
    pub kind: PieceKind,
    pub color: Color,
}

impl Color {
    /// The other side.
    pub open spec fn opposite(self) -> Color {
        match self {
            Color::White => Color::Black,
            Color::Black => Color::White,
        }
    }

    /// The integer code of a color: 1 for White, 2 for Black.
    pub open spec fn code(self) -> int {
        match self {
            Color::White => 1,
            Color::Black => 2,
        }
    }

    /// The color that an integer code stands for. Every code other than 1
    /// stands for Black.
    pub open spec fn of_code(code: int) -> Color {
        if code == 1 {
            Color::White
        } else {
            Color::Black
        }
    }

    /// Row change of a pawn's single step: White moves toward row 0.
    pub open spec fn forward(self) -> int {
        match self {
            Color::White => -1,
            Color::Black => 1,
        }
    }

    /// Row on which this side's pawns start.
    pub open spec fn home_row(self) -> int {
        match self {
            Color::White => 6,
            Color::Black => 1,
        }
    }

    /// Row on which this side's pawns promote.
    pub open spec fn far_row(self) -> int {
        match self {
            Color::White => 0,
            Color::Black => 7,
        }
    }

    pub fn other(self) -> (r: Color)
        ensures
            r == self.opposite(),
    {
        match self {
            Color::White => Color::Black,
            Color::Black => Color::White,
        }
    }

    pub fn to_code(self) -> (r: i32)
        ensures
            r == self.code(),
    {
        match self {
            Color::White => 1,
            Color::Black => 2,
        }
    }

    pub fn from_code(code: i32) -> (r: Color)
        ensures
            r == Color::of_code(code as int),
    {
        if code == 1 {
            Color::White
        } else {
            Color::Black
        }
    }

    pub fn pawn_direction(self) -> (r: i32)
        ensures
            r == self.forward(),
    {
        match self {
            Color::White => -1,
            Color::Black => 1,
        }
    }

    pub fn pawn_home_row(self) -> (r: i32)
        ensures
            r == self.home_row(),
    {
        match self {
            Color::White => 6,
            Color::Black => 1,
        }
    }

    pub fn promotion_row(self) -> (r: i32)
        ensures
            r == self.far_row(),
    {
        match self {
            Color::White => 0,
            Color::Black => 7,
        }
    }
}

impl PieceKind {
    /// The kind's number: 1 pawn, 2 rook, 3 knight, 4 bishop, 5 queen, 6 king.
    pub open spec fn number(self) -> int {
        match self {
            PieceKind::Pawn => 1,
            PieceKind::Rook => 2,
            PieceKind::Knight => 3,
            PieceKind::Bishop => 4,
            PieceKind::Queen => 5,
            PieceKind::King => 6,
        }
    }

    /// The kind with a given number, if the number is one of 1 to 6.
    pub open spec fn of_number(n: int) -> Option<PieceKind> {
        if n == 1 {
            Some(PieceKind::Pawn)
        } else if n == 2 {
            Some(PieceKind::Rook)
        } else if n == 3 {
            Some(PieceKind::Knight)
        } else if n == 4 {
            Some(PieceKind::Bishop)
        } else if n == 5 {
            Some(PieceKind::Queen)
        } else if n == 6 {
            Some(PieceKind::King)
        } else {
            None
        }
    }

    pub fn to_number(self) -> (r: i32)
        ensures
            r == self.number(),
    {
        match self {
            PieceKind::Pawn => 1,
            PieceKind::Rook => 2,
            PieceKind::Knight => 3,
            PieceKind::Bishop => 4,
            PieceKind::Queen => 5,
            PieceKind::King => 6,
        }
    }

    pub fn from_number(n: i32) -> (r: Option<PieceKind>)
        ensures
            r == PieceKind::of_number(n as int),
    {
        if n == 1 {
            Some(PieceKind::Pawn)
        } else if n == 2 {
            Some(PieceKind::Rook)
        } else if n == 3 {
            Some(PieceKind::Knight)
        } else if n == 4 {
            Some(PieceKind::Bishop)
        } else if n == 5 {
            Some(PieceKind::Queen)
        } else if n == 6 {
            Some(PieceKind::King)
        } else {
            None
        }
    }
}

/// The integer code of what a square holds: 0 for an empty square, the kind's
/// number for a white piece, the kind's number plus 6 for a black one.
pub open spec fn square_code(square: Option<Piece>) -> int {
    match square {
        None => 0,
        Some(p) => match p.color {
            Color::White => p.kind.number(),
            Color::Black => p.kind.number() + 6,
        },
    }
}

/// What an integer code stands for: a piece for the codes 1 to 12, an empty
/// square for every other code.
pub open spec fn code_square(code: int) -> Option<Piece> {
    if 1 <= code <= 6 {
        Some(Piece { kind: PieceKind::of_number(code)->0, color: Color::White })
    } else if 7 <= code <= 12 {
        Some(Piece { kind: PieceKind::of_number(code - 6)->0, color: Color::Black })
    } else {
        None
    }
}

impl Piece {
    pub fn new(kind: PieceKind, color: Color) -> (p: Piece)
        ensures
            p == (Piece { kind, color }),
    {
        Piece { kind, color }
    }

    /// The piece, or the empty square, that a code stands for.
    pub fn from_code(code: i32) -> (r: Option<Piece>)
        ensures
            r == code_square(code as int),
    {
        if 1 <= code && code <= 6 {
            match PieceKind::from_number(code) {
                Some(kind) => Some(Piece { kind, color: Color::White }),
                None => None,
            }
        } else if 7 <= code && code <= 12 {
            match PieceKind::from_number(code - 6) {
                Some(kind) => Some(Piece { kind, color: Color::Black }),
                None => None,
            }
        } else {
            None
        }
    }

    /// The code of a square's content.
    pub fn code_of(square: Option<Piece>) -> (r: i32)
        ensures
            r == square_code(square),
            0 <= r <= 12,
    {
        match square {
            None => 0,
            Some(p) => match p.color {
                Color::White => p.kind.to_number(),
                Color::Black => p.kind.to_number() + 6,
            },
        }
    }
}

} // verus!
