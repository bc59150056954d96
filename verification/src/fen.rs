//! Writing a game as text in the positional notation, and reading one back.

use vstd::prelude::*;
use vstd::string::*;
use crate::game::ChessGame;
use crate::notation::{
    FenError,
    castling_text,
    decode,
    digit_char,
    digit_value,
    en_passant_text,
    fen_text,
    fields,
    file_char,
    finished,
    is_whitespace,
    letter_piece,
    parse_en_passant,
    parse_placement,
    parse_side,
    piece_letter,
    place,
    placement_from,
    placement_text,
    rights_letters,
    run_text,
    side_text,
    split_fields,
};
use crate::piece::{Color, Piece, PieceKind};
use crate::position::Position;
use crate::round_trip::lemma_round_trip;

verus! {

/// Whether a character separates fields.
pub fn is_space(c: char) -> (r: bool)
    ensures
        r == is_whitespace(c),
{
    let u: u32 = c as u32;
    u == 0x20 || (0x09 <= u && u <= 0x0D) || u == 0x85 || u == 0xA0 || u == 0x1680 || (0x2000 <= u
        && u <= 0x200A) || u == 0x2028 || u == 0x2029 || u == 0x202F || u == 0x205F || u == 0x3000
}

/// The value of a decimal digit; nothing for any other character.
pub fn to_digit(c: char) -> (r: Option<usize>)
    ensures
        match r {
            Some(d) => digit_value(c) == Some(d as int) && d <= 9,
            None => digit_value(c) is None,
        },
{
    if c >= '0' && c <= '9' {
        Some((c as u32 - '0' as u32) as usize)
    } else {
        None
    }
}

/// The piece that a letter of the placement stands for, if it stands for one.
pub fn piece_of_letter(c: char) -> (r: Option<Piece>)
    ensures
        r == letter_piece(c),
{
    if c == 'p' {
        Some(Piece { kind: PieceKind::Pawn, color: Color::Black })
    } else if c == 'r' {
        Some(Piece { kind: PieceKind::Rook, color: Color::Black })
    } else if c == 'n' {
        Some(Piece { kind: PieceKind::Knight, color: Color::Black })
    } else if c == 'b' {
        Some(Piece { kind: PieceKind::Bishop, color: Color::Black })
    } else if c == 'q' {
        Some(Piece { kind: PieceKind::Queen, color: Color::Black })
    } else if c == 'k' {
        Some(Piece { kind: PieceKind::King, color: Color::Black })
    } else if c == 'P' {
        Some(Piece { kind: PieceKind::Pawn, color: Color::White })
    } else if c == 'R' {
        Some(Piece { kind: PieceKind::Rook, color: Color::White })
    } else if c == 'N' {
        Some(Piece { kind: PieceKind::Knight, color: Color::White })
    } else if c == 'B' {
        Some(Piece { kind: PieceKind::Bishop, color: Color::White })
    } else if c == 'Q' {
        Some(Piece { kind: PieceKind::Queen, color: Color::White })
    } else if c == 'K' {
        Some(Piece { kind: PieceKind::King, color: Color::White })
    } else {
        None
    }
}

/// The letter of a piece, as a text of one character.
pub fn letter_of_piece(p: Piece) -> (s: &'static str)
    ensures
        s@ == seq![piece_letter(p)],
{
    proof {
        reveal_strlit("P");
        reveal_strlit("R");
        reveal_strlit("N");
        reveal_strlit("B");
        reveal_strlit("Q");
        reveal_strlit("K");
        reveal_strlit("p");
        reveal_strlit("r");
        reveal_strlit("n");
        reveal_strlit("b");
        reveal_strlit("q");
        reveal_strlit("k");
    }
    let s: &'static str = match p.color {
        Color::White => match p.kind {
            PieceKind::Pawn => "P",
            PieceKind::Rook => "R",
            PieceKind::Knight => "N",
            PieceKind::Bishop => "B",
            PieceKind::Queen => "Q",
            PieceKind::King => "K",
        },
        Color::Black => match p.kind {
            PieceKind::Pawn => "p",
            PieceKind::Rook => "r",
            PieceKind::Knight => "n",
            PieceKind::Bishop => "b",
            PieceKind::Queen => "q",
            PieceKind::King => "k",
        },
    };
    assert(s@ =~= seq![piece_letter(p)]);
    s
}

/// The digit for a number from 1 to 8, as a text of one character.
pub fn digit_of(n: usize) -> (s: &'static str)
    requires
        1 <= n <= 8,
    ensures
        s@ == seq![digit_char(n as int)],
{
    proof {
        reveal_strlit("1");
        reveal_strlit("2");
        reveal_strlit("3");
        reveal_strlit("4");
        reveal_strlit("5");
        reveal_strlit("6");
        reveal_strlit("7");
        reveal_strlit("8");
    }
    let s: &'static str = if n == 1 {
        "1"
    } else if n == 2 {
        "2"
    } else if n == 3 {
        "3"
    } else if n == 4 {
        "4"
    } else if n == 5 {
        "5"
    } else if n == 6 {
        "6"
    } else if n == 7 {
        "7"
    } else {
        "8"
    };
    assert(s@ =~= seq![digit_char(n as int)]);
    s
}

/// The letter of the file in a column from 0 to 7, as a text of one character.
pub fn file_of(col: usize) -> (s: &'static str)
    requires
        col <= 7,
    ensures
        s@ == seq![file_char(col as int)],
{
    proof {
        reveal_strlit("a");
        reveal_strlit("b");
        reveal_strlit("c");
        reveal_strlit("d");
        reveal_strlit("e");
        reveal_strlit("f");
        reveal_strlit("g");
        reveal_strlit("h");
    }
    let s: &'static str = if col == 0 {
        "a"
    } else if col == 1 {
        "b"
    } else if col == 2 {
        "c"
    } else if col == 3 {
        "d"
    } else if col == 4 {
        "e"
    } else if col == 5 {
        "f"
    } else if col == 6 {
        "g"
    } else {
        "h"
    };
    assert(s@ =~= seq![file_char(col as int)]);
    s
}

/// The characters of a text, one by one.
pub fn chars_of(s: &str) -> (v: Vec<char>)
    ensures
        v@ == s@,
{
    let mut v: Vec<char> = Vec::new();
    for c in it: s.chars()
        invariant
            v@ == it.seq().take(it.index() as int),
    {
        v.push(c);
    }
    v
}

/// The views of a list of character vectors.
pub open spec fn field_views(parts: Seq<Vec<char>>) -> Seq<Seq<char>> {
    Seq::new(parts.len(), |i: int| parts[i]@)
}

/// The fields of a text: its maximal runs of characters that are not
/// whitespace.
pub fn split_whitespace(text: &Vec<char>) -> (parts: Vec<Vec<char>>)
    ensures
        field_views(parts@) == fields(text@),
{
    let mut parts: Vec<Vec<char>> = Vec::new();
    let mut current: Vec<char> = Vec::new();
    let mut i: usize = 0;
    proof {
        assert(text@.skip(0) =~= text@);
        assert(field_views(parts@) + fields(text@) =~= fields(text@));
    }
    while i < text.len()
        invariant
            i <= text.len(),
            field_views(parts@) + split_fields(text@.skip(i as int), current@) == fields(text@),
        decreases text.len() - i,
    {
        let c: char = text[i];
        let ghost done = field_views(parts@);
        let ghost open = current@;
        let ghost rest = text@.skip(i as int + 1);
        proof {
            assert(text@.skip(i as int).skip(1) =~= rest);
            assert(text@.skip(i as int)[0] == c);
        }
        if is_space(c) {
            assert(split_fields(text@.skip(i as int), open) == finished(open) + split_fields(
                rest,
                Seq::empty(),
            ));
            if current.len() > 0 {
                parts.push(current);
                assert(field_views(parts@) =~= done + finished(open));
                current = Vec::new();
            }
            assert(current@ =~= Seq::<char>::empty());
            assert(field_views(parts@) =~= done + finished(open));
            assert(field_views(parts@) + split_fields(rest, current@) =~= done + (finished(open)
                + split_fields(rest, Seq::empty())));
        } else {
            current.push(c);
            assert(split_fields(text@.skip(i as int), open) == split_fields(rest, open.push(c)));
        }
        i += 1;
    }
    let ghost done = field_views(parts@);
    let ghost open = current@;
    assert(text@.skip(i as int).len() == 0);
    if current.len() > 0 {
        parts.push(current);
    }
    assert(field_views(parts@) =~= done + finished(open));
    parts
}

/// Whether a character occurs in a field.
pub fn contains_char(field: &Vec<char>, c: char) -> (r: bool)
    ensures
        r == field@.contains(c),
{
    let mut i: usize = 0;
    while i < field.len()
        invariant
            i <= field.len(),
            forall|k: int| 0 <= k < i ==> field@[k] != c,
        decreases field.len() - i,
    {
        if field[i] == c {
            return true;
        }
        i += 1;
    }
    false
}

/// The side that a field stands for.
pub fn side_of(field: &Vec<char>) -> (r: Color)
    ensures
        r == parse_side(field@),
{
    if field.len() == 1 && field[0] == 'w' {
        assert(field@ =~= seq!['w']);
        Color::White
    } else {
        Color::Black
    }
}

/// The en-passant target that a field stands for, or the refusal of a field
/// that names none.
pub fn en_passant_of(field: &Vec<char>) -> (r: Result<Option<(usize, usize)>, FenError>)
    ensures
        match r {
            Ok(Some((row, col))) => parse_en_passant(field@) == Ok::<
                Option<(int, int)>,
                FenError,
            >(Some((row as int, col as int))) && row < 8 && col < 8,
            Ok(None) => parse_en_passant(field@) == Ok::<Option<(int, int)>, FenError>(None),
            Err(e) => parse_en_passant(field@) == Err::<Option<(int, int)>, FenError>(e),
        },
{
    if field.len() == 1 && field[0] == '-' {
        assert(field@ =~= seq!['-']);
        return Ok(None);
    }
    if field.len() >= 2 {
        let file: char = field[0];
        let rank: char = field[1];
        if file >= 'a' && file <= 'h' && rank >= '1' && rank <= '8' {
            let col: usize = (file as u32 - 'a' as u32) as usize;
            let row: usize = 8 - (rank as u32 - '0' as u32) as usize;
            return Ok(Some((row, col)));
        }
    }
    Err(FenError::BadEnPassant)
}

/// The game with the pieces of a placement field on an otherwise blank state.
pub fn place_pieces(placement: &Vec<char>) -> (game: ChessGame)
    ensures
        game@ == (Position { squares: parse_placement(placement@), ..ChessGame::blank_position() }),
{
    let mut game: ChessGame = ChessGame::blank();
    let mut row: usize = 0;
    let mut col: usize = 0;
    let mut i: usize = 0;
    assert(placement@.skip(0) =~= placement@);
    while i < placement.len()
        invariant
            i <= placement.len(),
            row < 8,
            col <= 17,
            game@ == (Position { squares: game@.squares, ..ChessGame::blank_position() }),
            game@.squares.len() == 64,
            place(placement@.skip(i as int), row as int, col as int, game@.squares)
                == parse_placement(placement@),
        decreases placement.len() - i,
    {
        let ch: char = placement[i];
        proof {
            assert(placement@.skip(i as int).skip(1) =~= placement@.skip(i as int + 1));
            assert(placement@.skip(i as int)[0] == ch);
        }
        if ch == '/' {
            if row + 1 >= 8 {
                return game;
            }
            row += 1;
            col = 0;
        } else if col >= 8 {
        } else if let Some(digit) = to_digit(ch) {
            col += digit;
        } else {
            if let Some(piece) = piece_of_letter(ch) {
                game.set_square(row as i32, col as i32, Some(piece));
            }
            col += 1;
        }
        i += 1;
    }
    game
}

impl ChessGame {
    /// The game as text in the positional notation.
    pub fn fen(&self) -> (text: String)
        ensures
            text@ == fen_text(self@),
            decode(text@) == Ok::<Position, FenError>(self@),
    {
        proof {
            use_type_invariant(&*self);
            self.lemma_view_wf();
            lemma_round_trip(self@);
        }
        let mut fen_string: String = String::new();
        let mut r: usize = 0;
        while r < 8
            invariant
                r <= 8,
                r < 8 ==> fen_string@ + placement_from(self@.squares, r as int, 0, 0)
                    == placement_text(self@.squares),
                r == 8 ==> fen_string@ == placement_text(self@.squares),
            decreases 8 - r,
        {
            let mut empty_squares: usize = 0;
            let mut c: usize = 0;
            while c < 8
                invariant
                    r < 8,
                    c <= 8,
                    empty_squares <= c,
                    fen_string@ + placement_from(
                        self@.squares,
                        r as int,
                        c as int,
                        empty_squares as int,
                    ) == placement_text(self@.squares),
                decreases 8 - c,
            {
                let ghost before = fen_string@;
                let ghost rest = placement_from(self@.squares, r as int, c as int + 1, 0);
                match self.piece_on(r as i32, c as i32) {
                    None => {
                        empty_squares += 1;
                    },
                    Some(piece) => {
                        if empty_squares > 0 {
                            fen_string.append(digit_of(empty_squares));
                        }
                        fen_string.append(letter_of_piece(piece));
                        assert(fen_string@ + rest =~= before + (run_text(empty_squares as int)
                            + seq![piece_letter(piece)] + rest));
                        empty_squares = 0;
                    },
                }
                c += 1;
            }
            let ghost before = fen_string@;
            if empty_squares > 0 {
                fen_string.append(digit_of(empty_squares));
            }
            if r < 7 {
                proof {
                    reveal_strlit("/");
                }
                fen_string.append("/");
                let ghost rest = placement_from(self@.squares, r as int + 1, 0, 0);
                assert(fen_string@ + rest =~= before + (run_text(empty_squares as int) + seq!['/']
                    + rest));
            } else {
                assert(fen_string@ =~= before + run_text(empty_squares as int));
            }
            r += 1;
        }

        proof {
            reveal_strlit(" ");
            reveal_strlit("w");
            reveal_strlit("b");
            reveal_strlit("K");
            reveal_strlit("Q");
            reveal_strlit("k");
            reveal_strlit("q");
            reveal_strlit("-");
            reveal_strlit(" 0 1");
        }
        fen_string.append(" ");
        fen_string.append(
            match self.turn() {
                Color::White => "w",
                Color::Black => "b",
            },
        );
        assert(fen_string@ =~= placement_text(self@.squares) + seq![' '] + side_text(self@.turn));

        fen_string.append(" ");
        let ghost before_rights = fen_string@;
        let mut any_right: bool = false;
        if self.castling_right(Color::White, true) {
            fen_string.append("K");
            any_right = true;
        }
        if self.castling_right(Color::White, false) {
            fen_string.append("Q");
            any_right = true;
        }
        if self.castling_right(Color::Black, true) {
            fen_string.append("k");
            any_right = true;
        }
        if self.castling_right(Color::Black, false) {
            fen_string.append("q");
            any_right = true;
        }
        assert(fen_string@ =~= before_rights + rights_letters(self@));
        assert(any_right == (rights_letters(self@).len() > 0));
        if !any_right {
            fen_string.append("-");
        }
        assert(fen_string@ =~= before_rights + castling_text(self@));

        fen_string.append(" ");
        let ghost before_target = fen_string@;
        match self.en_passant() {
            Some((row, col)) => {
                fen_string.append(file_of(col));
                fen_string.append(digit_of(8 - row));
            },
            None => {
                fen_string.append("-");
            },
        }
        assert(fen_string@ =~= before_target + en_passant_text(self@.en_passant));

        fen_string.append(" 0 1");
        assert(fen_string@ =~= fen_text(self@));
        fen_string
    }

    /// Reads a text in the positional notation into this game. A text with
    /// fewer than four fields, or with a fourth field that names no square,
    /// is refused, and the game stays as it was.
    pub fn load_fen(&mut self, fen: &str) -> (r: Result<(), FenError>)
        ensures
            match decode(fen@) {
                Ok(p) => r is Ok && final(self)@ == p,
                Err(e) => r == Err::<(), FenError>(e) && final(self)@ == old(self)@,
            },
    {
        let text: Vec<char> = chars_of(fen);
        let parts: Vec<Vec<char>> = split_whitespace(&text);
        if parts.len() < 4 {
            return Err(FenError::TooFewFields);
        }
        assert(fields(fen@)[0] == parts@[0]@ && fields(fen@)[1] == parts@[1]@ && fields(fen@)[2]
            == parts@[2]@ && fields(fen@)[3] == parts@[3]@);
        let target: Option<(usize, usize)> = match en_passant_of(&parts[3]) {
            Ok(target) => target,
            Err(e) => {
                return Err(e);
            },
        };
        let mut game: ChessGame = place_pieces(&parts[0]);
        game.set_turn(side_of(&parts[1]));
        let castling: &Vec<char> = &parts[2];
        game.set_castling_rights(
            contains_char(castling, 'K'),
            contains_char(castling, 'Q'),
            contains_char(castling, 'k'),
            contains_char(castling, 'q'),
        );
        game.set_en_passant(target);
        *self = game;
        Ok(())
    }
}

} // verus!
