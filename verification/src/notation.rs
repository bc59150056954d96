//! The positional notation as a mathematical function: the text of a state,
//! and the state that a text stands for.
//!
//! A text has six fields, separated by single spaces: the placement of the
//! pieces, rank 8 first, with `/` between ranks, a digit for a run of empty
//! squares and a letter for a piece (upper case for White); the side to move,
//! `w` or `b`; the castling rights, a subset of `KQkq` or `-`; the en-passant
//! target, a file letter and a rank digit, or `-`; and two counters, which
//! this library does not track and always writes as `0` and `1`.
//!
//! Reading is lenient. Fields may be separated by any run of whitespace. Four
//! fields are enough. In the placement a character that is neither a digit,
//! nor a piece letter, nor `/` takes up one square and places nothing; what
//! runs over the end of a rank, or past the eighth rank, is left out.

use vstd::prelude::*;
use crate::piece::{Color, Piece, PieceKind};
use crate::position::{Position, Squares, empty_board, piece_at, with_square};

verus! {

/// Why a text is refused.
#[derive(Clone, Copy, PartialEq, Eq, Structural, Debug)]
pub enum FenError {
    /// The text has fewer than four fields.
    TooFewFields,
    /// The fourth field is neither `-` nor a square of the board.
    BadEnPassant,
}

// ---------------------------------------------------------------------------
// Characters
// ---------------------------------------------------------------------------

/// Whether a character separates fields: the characters that Unicode gives
/// the property White_Space.
pub open spec fn is_whitespace(c: char) -> bool {
    let u = c as u32;
    ||| u == 0x20
    ||| 0x09 <= u <= 0x0D
    ||| u == 0x85
    ||| u == 0xA0
    ||| u == 0x1680
    ||| 0x2000 <= u <= 0x200A
    ||| u == 0x2028
    ||| u == 0x2029
    ||| u == 0x202F
    ||| u == 0x205F
    ||| u == 0x3000
}

/// The decimal digit for `n`, where `0 <= n <= 9`.
pub open spec fn digit_char(n: int) -> char {
    (48 + n) as char
}

/// The value of a decimal digit.
pub open spec fn digit_value(c: char) -> Option<int> {
    if '0' <= c <= '9' {
        Some(c as int - 48)
    } else {
        None
    }
}

/// The letter of the file in column `c`, where `0 <= c <= 7`: `a` to `h`.
pub open spec fn file_char(c: int) -> char {
    (97 + c) as char
}

/// The letter that stands for a kind of piece, in lower case.
pub open spec fn kind_letter(kind: PieceKind) -> char {
    match kind {
        PieceKind::Pawn => 'p',
        PieceKind::Rook => 'r',
        PieceKind::Knight => 'n',
        PieceKind::Bishop => 'b',
        PieceKind::Queen => 'q',
        PieceKind::King => 'k',
    }
}

/// The letter that stands for a piece: upper case for White, lower case for
/// Black.
pub open spec fn piece_letter(p: Piece) -> char {
    match p.color {
        Color::Black => kind_letter(p.kind),
        Color::White => (kind_letter(p.kind) as int - 32) as char,
    }
}

/// The piece that a letter stands for, if it stands for one.
pub open spec fn letter_piece(c: char) -> Option<Piece> {
    if c == 'p' {
        Some(Piece { kind: PieceKind::Pawn, color: Color::Black })
    } else if c == 'r' {
        Some(Piece { kind: PieceKind::Rook, color: Color::Black })
    } else if c == 'n' {
        Some(Piece { kind: PieceKind::Knight, color: Color::Black })
    } else if c == 'b' {
        Some(Piece { kind: PieceKind::Bishop, color: Color::Black })
    } else if c == 'q' {
        Some(Piece { kind: PieceKind::Queen, color: Color::Black })
    } else if c == 'k' {
        Some(Piece { kind: PieceKind::King, color: Color::Black })
    } else if c == 'P' {
        Some(Piece { kind: PieceKind::Pawn, color: Color::White })
    } else if c == 'R' {
        Some(Piece { kind: PieceKind::Rook, color: Color::White })
    } else if c == 'N' {
        Some(Piece { kind: PieceKind::Knight, color: Color::White })
    } else if c == 'B' {
        Some(Piece { kind: PieceKind::Bishop, color: Color::White })
    } else if c == 'Q' {
        Some(Piece { kind: PieceKind::Queen, color: Color::White })
    } else if c == 'K' {
        Some(Piece { kind: PieceKind::King, color: Color::White })
    } else {
        None
    }
}

// ---------------------------------------------------------------------------
// From a state to its text
// ---------------------------------------------------------------------------

/// The digit for a run of empty squares; nothing for a run of none.
pub open spec fn run_text(run: int) -> Seq<char> {
    if run > 0 {
        seq![digit_char(run)]
    } else {
        Seq::empty()
    }
}

/// The placement text from the square `(r, c)` on, where a run of `run` empty
/// squares of row `r` stands before it unwritten.
pub open spec fn placement_from(b: Squares, r: int, c: int, run: int) -> Seq<char>
    decreases 8 - r, 8 - c,
{
    if r < 0 || r >= 8 || c < 0 || c > 8 {
        Seq::empty()
    } else if c == 8 {
        if r < 7 {
            run_text(run) + seq!['/'] + placement_from(b, r + 1, 0, 0)
        } else {
            run_text(run)
        }
    } else {
        match piece_at(b, r, c) {
            None => placement_from(b, r, c + 1, run + 1),
            Some(p) => run_text(run) + seq![piece_letter(p)] + placement_from(b, r, c + 1, 0),
        }
    }
}

/// The first field: the placement of the pieces.
pub open spec fn placement_text(b: Squares) -> Seq<char> {
    placement_from(b, 0, 0, 0)
}

/// The second field: the side to move.
pub open spec fn side_text(turn: Color) -> Seq<char> {
    match turn {
        Color::White => seq!['w'],
        Color::Black => seq!['b'],
    }
}

/// The letter of a castling right that is held; nothing for one that is not.
pub open spec fn right_text(held: bool, letter: char) -> Seq<char> {
    if held {
        seq![letter]
    } else {
        Seq::empty()
    }
}

/// The letters of the castling rights that are held, in the order `KQkq`.
pub open spec fn rights_letters(p: Position) -> Seq<char> {
    right_text(p.white_kingside, 'K') + right_text(p.white_queenside, 'Q') + right_text(
        p.black_kingside,
        'k',
    ) + right_text(p.black_queenside, 'q')
}

/// The third field: the castling rights, `-` if none is held.
pub open spec fn castling_text(p: Position) -> Seq<char> {
    if rights_letters(p).len() == 0 {
        seq!['-']
    } else {
        rights_letters(p)
    }
}

/// The fourth field: the en-passant target, `-` if there is none.
pub open spec fn en_passant_text(target: Option<(int, int)>) -> Seq<char> {
    match target {
        None => seq!['-'],
        Some((r, c)) => seq![file_char(c), digit_char(8 - r)],
    }
}

/// The text of a state.
pub open spec fn fen_text(p: Position) -> Seq<char> {
    placement_text(p.squares) + seq![' '] + side_text(p.turn) + seq![' '] + castling_text(p)
        + seq![' '] + en_passant_text(p.en_passant) + seq![' ', '0', ' ', '1']
}

// ---------------------------------------------------------------------------
// From a text to its state
// ---------------------------------------------------------------------------

/// The field that ends here, if one has begun.
pub open spec fn finished(current: Seq<char>) -> Seq<Seq<char>> {
    if current.len() > 0 {
        seq![current]
    } else {
        Seq::empty()
    }
}

/// The fields of `s`, where `current` holds the characters of a field that has
/// begun before `s`.
pub open spec fn split_fields(s: Seq<char>, current: Seq<char>) -> Seq<Seq<char>>
    decreases s.len(),
{
    if s.len() == 0 {
        finished(current)
    } else if is_whitespace(s[0]) {
        finished(current) + split_fields(s.skip(1), Seq::empty())
    } else {
        split_fields(s.skip(1), current.push(s[0]))
    }
}

/// The fields of a text: its maximal runs of characters that are not
/// whitespace, in order.
pub open spec fn fields(s: Seq<char>) -> Seq<Seq<char>> {
    split_fields(s, Seq::empty())
}

/// The board that the placement `s` gives when read from row `row`, column
/// `col` on, onto the board `b`. A `/` goes to the start of the next row, and
/// ends the reading after the eighth. Past the end of a row everything up to
/// the next `/` is left out. A digit skips as many squares as it says; a piece
/// letter fills a square; any other character skips one.
pub open spec fn place(s: Seq<char>, row: int, col: int, b: Squares) -> Squares
    decreases s.len(),
{
    if s.len() == 0 {
        b
    } else if s[0] == '/' {
        if row + 1 >= 8 {
            b
        } else {
            place(s.skip(1), row + 1, 0, b)
        }
    } else if col >= 8 {
        place(s.skip(1), row, col, b)
    } else if digit_value(s[0]) is Some {
        place(s.skip(1), row, col + digit_value(s[0])->0, b)
    } else if letter_piece(s[0]) is Some {
        place(s.skip(1), row, col + 1, with_square(b, row, col, letter_piece(s[0])))
    } else {
        place(s.skip(1), row, col + 1, b)
    }
}

/// The board that a placement field stands for.
pub open spec fn parse_placement(s: Seq<char>) -> Squares {
    place(s, 0, 0, empty_board())
}

/// The side that a second field stands for: White for `w`, Black for anything
/// else.
pub open spec fn parse_side(s: Seq<char>) -> Color {
    if s == seq!['w'] {
        Color::White
    } else {
        Color::Black
    }
}

/// The en-passant target that a fourth field stands for: none for `-`; else
/// the square named by its first two characters, a file letter `a` to `h` and
/// a rank digit `1` to `8`, whatever follows them. Any other field is
/// malformed.
pub open spec fn parse_en_passant(s: Seq<char>) -> Result<Option<(int, int)>, FenError> {
    if s == seq!['-'] {
        Ok(None)
    } else if s.len() >= 2 && 'a' <= s[0] <= 'h' && '1' <= s[1] <= '8' {
        Ok(Some((8 - (s[1] as int - 48), s[0] as int - 97)))
    } else {
        Err(FenError::BadEnPassant)
    }
}

/// The state that a text stands for, or the reason for which it is refused.
/// Fields after the fourth are not looked at.
pub open spec fn decode(text: Seq<char>) -> Result<Position, FenError> {
    let f = fields(text);
    if f.len() < 4 {
        Err(FenError::TooFewFields)
    } else {
        match parse_en_passant(f[3]) {
            Err(e) => Err(e),
            Ok(target) => Ok(
                Position {
                    squares: parse_placement(f[0]),
                    turn: parse_side(f[1]),
                    white_kingside: f[2].contains('K'),
                    white_queenside: f[2].contains('Q'),
                    black_kingside: f[2].contains('k'),
                    black_queenside: f[2].contains('q'),
                    en_passant: target,
                },
            ),
        }
    }
}

} // verus!
