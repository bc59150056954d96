//! Reading undoes writing: the text of a well-formed state stands for that
//! state.

use vstd::prelude::*;
use crate::notation::{
    castling_text,
    decode,
    digit_char,
    digit_value,
    en_passant_text,
    fen_text,
    fields,
    file_char,
    finished,
    is_whitespace,
    letter_piece,
    parse_en_passant,
    parse_placement,
    parse_side,
    piece_letter,
    place,
    placement_from,
    placement_text,
    right_text,
    rights_letters,
    run_text,
    side_text,
    split_fields,
};
use crate::piece::Color;
use crate::position::{Position, Squares, empty_board, on_board, piece_at, with_square};

verus! {

/// No character of `s` separates fields.
pub open spec fn no_whitespace(s: Seq<char>) -> bool {
    forall|i: int| 0 <= i < s.len() ==> !is_whitespace(#[trigger] s[i])
}

/// A run of characters without whitespace goes whole into the current field.
proof fn lemma_split_word(word: Seq<char>, rest: Seq<char>, current: Seq<char>)
    requires
        no_whitespace(word),
    ensures
        split_fields(word + rest, current) == split_fields(rest, current + word),
    decreases word.len(),
{
    if word.len() == 0 {
        assert(word + rest =~= rest);
        assert(current + word =~= current);
    } else {
        let s = word + rest;
        assert(s[0] == word[0]);
        assert(!is_whitespace(word[0]));
        assert(s.skip(1) =~= word.skip(1) + rest);
        assert(no_whitespace(word.skip(1))) by {
            assert forall|i: int| 0 <= i < word.skip(1).len() implies !is_whitespace(
                #[trigger] word.skip(1)[i],
            ) by {
                assert(word.skip(1)[i] == word[i + 1]);
            }
        }
        lemma_split_word(word.skip(1), rest, current.push(word[0]));
        assert(current.push(word[0]) + word.skip(1) =~= current + word);
    }
}

/// A word followed by a space is the first field of a text.
proof fn lemma_first_field(word: Seq<char>, rest: Seq<char>)
    requires
        no_whitespace(word),
        word.len() > 0,
    ensures
        fields(word + seq![' '] + rest) == seq![word] + fields(rest),
{
    let tail = seq![' '] + rest;
    assert(word + seq![' '] + rest =~= word + tail);
    lemma_split_word(word, tail, Seq::empty());
    assert(Seq::<char>::empty() + word =~= word);
    assert(tail[0] == ' ');
    assert(tail.skip(1) =~= rest);
    assert(split_fields(tail, word) == finished(word) + split_fields(rest, Seq::empty()));
}

/// The placement text holds no whitespace, and is not empty where a further
/// row follows.
proof fn lemma_placement_is_word(b: Squares, r: int, c: int, run: int)
    requires
        0 <= r < 8,
        0 <= run <= c <= 8,
    ensures
        no_whitespace(placement_from(b, r, c, run)),
        r < 7 ==> placement_from(b, r, c, run).len() > 0,
    decreases 8 - r, 8 - c,
{
    let text = placement_from(b, r, c, run);
    if c == 8 {
        if r < 7 {
            lemma_placement_is_word(b, r + 1, 0, 0);
            let next = placement_from(b, r + 1, 0, 0);
            assert(text == run_text(run) + seq!['/'] + next);
            assert forall|i: int| 0 <= i < text.len() implies !is_whitespace(
                #[trigger] text[i],
            ) by {
                let head = run_text(run) + seq!['/'];
                if i < head.len() {
                    assert(text[i] == head[i]);
                } else {
                    assert(text[i] == next[i - head.len()]);
                }
            }
        }
    } else {
        match piece_at(b, r, c) {
            None => {
                lemma_placement_is_word(b, r, c + 1, run + 1);
            },
            Some(p) => {
                lemma_placement_is_word(b, r, c + 1, 0);
                let next = placement_from(b, r, c + 1, 0);
                assert(text == run_text(run) + seq![piece_letter(p)] + next);
                assert forall|i: int| 0 <= i < text.len() implies !is_whitespace(
                    #[trigger] text[i],
                ) by {
                    let head = run_text(run) + seq![piece_letter(p)];
                    if i < head.len() {
                        assert(text[i] == head[i]);
                    } else {
                        assert(text[i] == next[i - head.len()]);
                    }
                }
            },
        }
    }
}

/// The board `b` from index `from` on, and the board `acc` before it.
pub open spec fn merged(acc: Squares, b: Squares, from: int) -> Squares {
    Seq::new(
        64,
        |i: int|
            if i >= from {
                b[i]
            } else {
                acc[i]
            },
    )
}

/// Reading the digit of a run of empty squares skips that run.
proof fn lemma_place_run(run: int, rest: Seq<char>, row: int, col: int, acc: Squares)
    requires
        0 <= run <= 8,
        col + run <= 8,
    ensures
        place(run_text(run) + rest, row, col, acc) == place(rest, row, col + run, acc),
{
    if run == 0 {
        assert(run_text(run) + rest =~= rest);
    } else {
        let s = run_text(run) + rest;
        assert(s[0] == digit_char(run));
        assert(s.skip(1) =~= rest);
        assert(digit_value(s[0]) == Some(run));
    }
}

/// Reading the placement text of `b`, from a square on, fills in `b` from that
/// square on.
proof fn lemma_place_placement(b: Squares, r: int, c: int, run: int, acc: Squares)
    requires
        b.len() == 64,
        acc.len() == 64,
        0 <= r < 8,
        0 <= run <= c <= 8,
        forall|k: int| c - run <= k < c ==> (#[trigger] piece_at(b, r, k)) is None,
        forall|i: int| 8 * r + c - run <= i < 64 ==> (#[trigger] acc[i]) is None,
    ensures
        place(placement_from(b, r, c, run), r, c - run, acc) == merged(acc, b, 8 * r + c - run),
    decreases 8 - r, 8 - c,
{
    let text = placement_from(b, r, c, run);
    let from = 8 * r + c - run;
    assert forall|i: int| from <= i < 8 * r + c implies b[i] is None by {
        assert(piece_at(b, r, i - 8 * r) is None);
    }
    if c == 8 {
        if r < 7 {
            let next = placement_from(b, r + 1, 0, 0);
            let tail = seq!['/'] + next;
            assert(text =~= run_text(run) + tail);
            lemma_place_run(run, tail, r, c - run, acc);
            assert(tail[0] == '/');
            assert(tail.skip(1) =~= next);
            assert(place(tail, r, 8, acc) == place(next, r + 1, 0, acc));
            lemma_place_placement(b, r + 1, 0, 0, acc);
            assert(merged(acc, b, 8 * (r + 1)) =~= merged(acc, b, from));
        } else {
            assert(text =~= run_text(run) + Seq::<char>::empty());
            lemma_place_run(run, Seq::empty(), r, c - run, acc);
            assert(acc =~= merged(acc, b, from));
        }
    } else {
        match piece_at(b, r, c) {
            None => {
                assert forall|k: int| c + 1 - (run + 1) <= k < c + 1 implies (#[trigger] piece_at(
                    b,
                    r,
                    k,
                )) is None by {}
                lemma_place_placement(b, r, c + 1, run + 1, acc);
            },
            Some(p) => {
                let next = placement_from(b, r, c + 1, 0);
                let tail = seq![piece_letter(p)] + next;
                assert(text =~= run_text(run) + tail);
                lemma_place_run(run, tail, r, c - run, acc);
                assert(tail[0] == piece_letter(p));
                assert(tail.skip(1) =~= next);
                assert(letter_piece(piece_letter(p)) == Some(p));
                assert(digit_value(piece_letter(p)) is None);
                let filled = with_square(acc, r, c, Some(p));
                assert(place(tail, r, c, acc) == place(next, r, c + 1, filled));
                lemma_place_placement(b, r, c + 1, 0, filled);
                assert(merged(filled, b, 8 * r + c + 1) =~= merged(acc, b, from));
            },
        }
    }
}

/// The placement of a board of 64 squares reads back as that board.
pub proof fn lemma_placement_round_trip(b: Squares)
    requires
        b.len() == 64,
    ensures
        parse_placement(placement_text(b)) == b,
{
    lemma_place_placement(b, 0, 0, 0, empty_board());
    assert(merged(empty_board(), b, 0) =~= b);
}

/// The side to move reads back.
pub proof fn lemma_side_round_trip(turn: Color)
    ensures
        parse_side(side_text(turn)) == turn,
{
    assert(seq!['b'][0] != seq!['w'][0]);
}

/// Each castling right reads back: its letter stands in the field exactly if
/// the right is held.
pub proof fn lemma_castling_round_trip(p: Position)
    ensures
        castling_text(p).contains('K') == p.white_kingside,
        castling_text(p).contains('Q') == p.white_queenside,
        castling_text(p).contains('k') == p.black_kingside,
        castling_text(p).contains('q') == p.black_queenside,
{
    let a = right_text(p.white_kingside, 'K');
    let b = right_text(p.white_queenside, 'Q');
    let c = right_text(p.black_kingside, 'k');
    let d = right_text(p.black_queenside, 'q');
    let text = castling_text(p);
    let letters = rights_letters(p);
    assert(letters == a + b + c + d);
    assert forall|i: int| 0 <= i < text.len() implies {
        ||| (#[trigger] text[i] == 'K' && p.white_kingside)
        ||| (text[i] == 'Q' && p.white_queenside)
        ||| (text[i] == 'k' && p.black_kingside)
        ||| (text[i] == 'q' && p.black_queenside)
        ||| text[i] == '-'
    } by {}
    if p.white_kingside {
        assert(text[0] == 'K');
    }
    if p.white_queenside {
        assert(text[a.len() as int] == 'Q');
    }
    if p.black_kingside {
        assert(text[(a.len() + b.len()) as int] == 'k');
    }
    if p.black_queenside {
        assert(text[(a.len() + b.len() + c.len()) as int] == 'q');
    }
}

/// The en-passant target reads back, if it is a square of the board.
pub proof fn lemma_en_passant_round_trip(target: Option<(int, int)>)
    requires
        target matches Some((r, c)) ==> on_board(r, c),
    ensures
        parse_en_passant(en_passant_text(target)) == Ok::<Option<(int, int)>, crate::notation::FenError>(
            target,
        ),
{
    let text = en_passant_text(target);
    match target {
        None => {},
        Some((r, c)) => {
            assert(text.len() == 2);
            assert(text[0] == file_char(c));
            assert(text[1] == digit_char(8 - r));
            assert(text != seq!['-']) by {
                assert(seq!['-'].len() == 1);
            }
        },
    }
}

/// Whether `s` can stand as a field: it is not empty and holds no whitespace.
pub open spec fn is_word(s: Seq<char>) -> bool {
    s.len() > 0 && no_whitespace(s)
}

/// Four words, each followed by a space, are the first four fields of a text.
proof fn lemma_four_fields(
    f0: Seq<char>,
    f1: Seq<char>,
    f2: Seq<char>,
    f3: Seq<char>,
    tail: Seq<char>,
)
    requires
        is_word(f0),
        is_word(f1),
        is_word(f2),
        is_word(f3),
    ensures
        ({
            let all = fields(f0 + seq![' '] + f1 + seq![' '] + f2 + seq![' '] + f3 + seq![' '] + tail);
            &&& all.len() >= 4
            &&& all[0] == f0
            &&& all[1] == f1
            &&& all[2] == f2
            &&& all[3] == f3
        }),
{
    let rest3 = f3 + seq![' '] + tail;
    let rest2 = f2 + seq![' '] + rest3;
    let rest1 = f1 + seq![' '] + rest2;
    let text = f0 + seq![' '] + f1 + seq![' '] + f2 + seq![' '] + f3 + seq![' '] + tail;
    assert(text =~= f0 + seq![' '] + rest1);
    lemma_first_field(f0, rest1);
    lemma_first_field(f1, rest2);
    lemma_first_field(f2, rest3);
    lemma_first_field(f3, tail);
    assert(fields(text) == seq![f0] + (seq![f1] + (seq![f2] + (seq![f3] + fields(tail)))));
}

/// The field of the side to move is a word.
proof fn lemma_side_is_word(turn: Color)
    ensures
        is_word(side_text(turn)),
{
}

/// The field of the castling rights is a word.
proof fn lemma_castling_is_word(p: Position)
    ensures
        is_word(castling_text(p)),
{
    let a = right_text(p.white_kingside, 'K');
    let b = right_text(p.white_queenside, 'Q');
    let c = right_text(p.black_kingside, 'k');
    let d = right_text(p.black_queenside, 'q');
    let text = castling_text(p);
    assert(rights_letters(p) == a + b + c + d);
    assert forall|i: int| 0 <= i < text.len() implies {
        ||| #[trigger] text[i] == 'K'
        ||| text[i] == 'Q'
        ||| text[i] == 'k'
        ||| text[i] == 'q'
        ||| text[i] == '-'
    } by {}
}

/// The field of an en-passant target on the board is a word.
proof fn lemma_en_passant_is_word(target: Option<(int, int)>)
    requires
        target matches Some((r, c)) ==> on_board(r, c),
    ensures
        is_word(en_passant_text(target)),
{
    let text = en_passant_text(target);
    match target {
        None => {},
        Some((r, c)) => {
            assert(text[0] == file_char(c));
            assert(text[1] == digit_char(8 - r));
        },
    }
}

/// The first four fields of the text of a state are its placement, its side
/// to move, its castling rights and its en-passant target.
pub proof fn lemma_fields_of_text(p: Position)
    requires
        p.wf(),
    ensures
        fields(fen_text(p)).len() >= 4,
        fields(fen_text(p))[0] == placement_text(p.squares),
        fields(fen_text(p))[1] == side_text(p.turn),
        fields(fen_text(p))[2] == castling_text(p),
        fields(fen_text(p))[3] == en_passant_text(p.en_passant),
{
    lemma_placement_is_word(p.squares, 0, 0, 0);
    lemma_side_is_word(p.turn);
    lemma_castling_is_word(p);
    lemma_en_passant_is_word(p.en_passant);
    let counters = seq!['0', ' ', '1'];
    lemma_four_fields(
        placement_text(p.squares),
        side_text(p.turn),
        castling_text(p),
        en_passant_text(p.en_passant),
        counters,
    );
    assert(fen_text(p) =~= placement_text(p.squares) + seq![' '] + side_text(p.turn) + seq![' ']
        + castling_text(p) + seq![' '] + en_passant_text(p.en_passant) + seq![' '] + counters);
}

/// Round trip: the text of a well-formed state stands for that state, with
/// the same placement, side to move, castling rights and en-passant target.
pub proof fn lemma_round_trip(p: Position)
    requires
        p.wf(),
    ensures
        decode(fen_text(p)) == Ok::<Position, crate::notation::FenError>(p),
{
    lemma_fields_of_text(p);
    lemma_placement_round_trip(p.squares);
    lemma_side_round_trip(p.turn);
    lemma_castling_round_trip(p);
    lemma_en_passant_round_trip(p.en_passant);
}

} // verus!
