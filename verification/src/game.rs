//! The game state and its plain accessors.

use vstd::prelude::*;
use crate::piece::{Color, Piece, PieceKind, square_code};
use crate::position::{
    Position,
    Squares,
    back_row_kind,
    on_board,
    opening_position,
    opening_square,
    with_square,
};

verus! {

/// A game of chess: the board, the side to move, the castling rights and the
/// en-passant target. Its view is the [`Position`] it stands for.
#[derive(Clone, Copy, Debug)]
pub struct ChessGame {
    board: [Option<Piece>; 64],
    current_turn: Color,
    white_can_castle_kingside: bool,
    white_can_castle_queenside: bool,
    black_can_castle_kingside: bool,
    black_can_castle_queenside: bool,
    en_passant_target: Option<(usize, usize)>,
}

impl View for ChessGame {
    type V = Position;

    closed spec fn view(&self) -> Position {
        Position {
            squares: self.board@,
            turn: self.current_turn,
            white_kingside: self.white_can_castle_kingside,
            white_queenside: self.white_can_castle_queenside,
            black_kingside: self.black_can_castle_kingside,
            black_queenside: self.black_can_castle_queenside,
            en_passant: match self.en_passant_target {
                Some((r, c)) => Some((r as int, c as int)),
                None => None,
            },
        }
    }
}

/// The integer codes of all 64 squares, in row-major order.
pub open spec fn board_codes(b: Squares) -> Seq<i32> {
    Seq::new(64, |i: int| square_code(b[i]) as i32)
}

impl ChessGame {
    /// The en-passant target, if there is one, is a square of the board.
    #[verifier::type_invariant]
    pub closed spec fn inv(self) -> bool {
        self.en_passant_target matches Some((r, c)) ==> r < 8 && c < 8
    }

    /// Every game stands for a well-formed position.
    pub proof fn lemma_view_wf(self)
        requires
            self.inv(),
        ensures
            self@.wf(),
    {
    }

    /// The standard opening position, White to move, with all four castling
    /// rights and no en-passant target.
    pub fn new() -> (game: ChessGame)
        ensures
            game@ == opening_position(),
    {
        let mut board: [Option<Piece>; 64] = [None; 64];
        let mut c: usize = 0;
        while c < 8
            invariant
                c <= 8,
                forall|i: int|
                    0 <= i < 64 ==> #[trigger] board@[i] == (if i % 8 < c {
                        opening_square(i / 8, i % 8)
                    } else {
                        None
                    }),
            decreases 8 - c,
        {
            let kind: PieceKind = if c == 0 || c == 7 {
                PieceKind::Rook
            } else if c == 1 || c == 6 {
                PieceKind::Knight
            } else if c == 2 || c == 5 {
                PieceKind::Bishop
            } else if c == 3 {
                PieceKind::Queen
            } else {
                PieceKind::King
            };
            assert(kind == back_row_kind(c as int));
            board[c] = Some(Piece { kind, color: Color::Black });
            board[8 + c] = Some(Piece { kind: PieceKind::Pawn, color: Color::Black });
            board[48 + c] = Some(Piece { kind: PieceKind::Pawn, color: Color::White });
            board[56 + c] = Some(Piece { kind, color: Color::White });
            c += 1;
        }
        let game = ChessGame {
            board,
            current_turn: Color::White,
            white_can_castle_kingside: true,
            white_can_castle_queenside: true,
            black_can_castle_kingside: true,
            black_can_castle_queenside: true,
            en_passant_target: None,
        };
        assert(game@.squares =~= opening_position().squares);
        game
    }

    /// The state with an empty board, White to move, no castling right and no
    /// en-passant target.
    pub open spec fn blank_position() -> Position {
        Position {
            squares: crate::position::empty_board(),
            turn: Color::White,
            white_kingside: false,
            white_queenside: false,
            black_kingside: false,
            black_queenside: false,
            en_passant: None,
        }
    }

    /// A game in that state.
    pub(crate) fn blank() -> (game: ChessGame)
        ensures
            game@ == Self::blank_position(),
    {
        let game = ChessGame {
            board: [None; 64],
            current_turn: Color::White,
            white_can_castle_kingside: false,
            white_can_castle_queenside: false,
            black_can_castle_kingside: false,
            black_can_castle_queenside: false,
            en_passant_target: None,
        };
        assert(game@.squares =~= crate::position::empty_board());
        game
    }

    /// Whether the coordinates name a square of the board.
    pub fn is_on_board(x: i32, y: i32) -> (r: bool)
        ensures
            r == on_board(x as int, y as int),
    {
        x >= 0 && x < 8 && y >= 0 && y < 8
    }

    /// What the square at row `x`, column `y` holds; nothing, if the
    /// coordinates lie outside the board.
    pub fn piece_on(&self, x: i32, y: i32) -> (r: Option<Piece>)
        ensures
            r == self@.at(x as int, y as int),
    {
        if Self::is_on_board(x, y) {
            let i: usize = (8 * x + y) as usize;
            self.board[i]
        } else {
            None
        }
    }

    /// The side to move.
    pub fn turn(&self) -> (r: Color)
        ensures
            r == self@.turn,
    {
        self.current_turn
    }

    /// Whether `color` still holds the castling right of the given side.
    pub fn castling_right(&self, color: Color, kingside: bool) -> (r: bool)
        ensures
            r == self@.castling_right(color, kingside),
    {
        match color {
            Color::White => if kingside {
                self.white_can_castle_kingside
            } else {
                self.white_can_castle_queenside
            },
            Color::Black => if kingside {
                self.black_can_castle_kingside
            } else {
                self.black_can_castle_queenside
            },
        }
    }

    /// The en-passant target: the square that a pawn skipped on the move just
    /// made, if it advanced two rows.
    pub fn en_passant(&self) -> (r: Option<(usize, usize)>)
        ensures
            match r {
                Some((row, col)) => self@.en_passant == Some((row as int, col as int)) && row < 8
                    && col < 8,
                None => self@.en_passant is None,
            },
    {
        proof {
            use_type_invariant(&*self);
        }
        self.en_passant_target
    }

    pub(crate) fn set_square(&mut self, x: i32, y: i32, content: Option<Piece>)
        requires
            on_board(x as int, y as int),
        ensures
            final(self)@ == (Position {
                squares: with_square(old(self)@.squares, x as int, y as int, content),
                ..old(self)@
            }),
    {
        proof {
            use_type_invariant(&*self);
        }
        let i: usize = (8 * x + y) as usize;
        self.board[i] = content;
    }

    pub(crate) fn set_turn(&mut self, color: Color)
        ensures
            final(self)@ == (Position { turn: color, ..old(self)@ }),
    {
        proof {
            use_type_invariant(&*self);
        }
        self.current_turn = color;
    }

    pub(crate) fn set_castling_rights(
        &mut self,
        white_kingside: bool,
        white_queenside: bool,
        black_kingside: bool,
        black_queenside: bool,
    )
        ensures
            final(self)@ == (Position {
                white_kingside,
                white_queenside,
                black_kingside,
                black_queenside,
                ..old(self)@
            }),
    {
        proof {
            use_type_invariant(&*self);
        }
        self.white_can_castle_kingside = white_kingside;
        self.white_can_castle_queenside = white_queenside;
        self.black_can_castle_kingside = black_kingside;
        self.black_can_castle_queenside = black_queenside;
    }

    pub(crate) fn set_en_passant(&mut self, target: Option<(usize, usize)>)
        requires
            target matches Some((r, c)) ==> r < 8 && c < 8,
        ensures
            final(self)@ == (Position {
                en_passant: match target {
                    Some((r, c)) => Some((r as int, c as int)),
                    None => None,
                },
                ..old(self)@
            }),
    {
        self.en_passant_target = target;
    }

    /// The codes of all 64 squares in one row-major list.
    pub fn get_board(&self) -> (codes: Vec<i32>)
        ensures
            codes@ == board_codes(self@.squares),
    {
        let mut codes: Vec<i32> = Vec::new();
        let mut i: usize = 0;
        while i < 64
            invariant
                i <= 64,
                codes@.len() == i,
                forall|k: int| 0 <= k < i ==> #[trigger] codes@[k] == square_code(self.board@[k]),
            decreases 64 - i,
        {
            codes.push(Piece::code_of(self.board[i]));
            i += 1;
        }
        assert(codes@ =~= board_codes(self@.squares));
        codes
    }

    /// Number of columns of the board.
    pub fn get_board_width(&self) -> (w: usize)
        ensures
            w == 8,
    {
        8
    }

    /// Number of rows of the board.
    pub fn get_board_height(&self) -> (h: usize)
        ensures
            h == 8,
    {
        8
    }

    /// The code of the piece at row `x`, column `y`: 0 for an empty square, and
    /// for coordinates outside the board.
    pub fn get_piece(&self, x: usize, y: usize) -> (code: i32)
        ensures
            code == square_code(self@.at(x as int, y as int)),
    {
        if x >= 8 || y >= 8 {
            return 0;
        }
        Piece::code_of(self.board[8 * x + y])
    }
}

} // verus!
