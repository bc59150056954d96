//! What holds of every move: safety of the mover's king, the meaning of an
//! attack, and the life of the castling rights and the en-passant target.

use vstd::prelude::*;
use crate::piece::{Color, PieceKind};
use crate::position::{Position, Squares, on_board};
use crate::rules::{apply_move, attacker_at, in_check, legal_move, square_attacked};
use crate::utils::gap;

verus! {

/// Safety: a legal move never leaves the mover's own king in check, whether
/// it is carried out for good or in simulation.
pub proof fn lemma_legal_move_is_safe(
    p: Position,
    sr: int,
    sc: int,
    er: int,
    ec: int,
    simulate: bool,
)
    requires
        p.wf(),
        legal_move(p, sr, sc, er, ec),
    ensures
        !in_check(apply_move(p, sr, sc, er, ec, simulate).squares, p.turn),
{
}

/// Number of squares among the first `n`, in row-major order, that hold a
/// piece of color `by` with a capturing shape onto `(r, c)`.
pub open spec fn attackers_among(b: Squares, r: int, c: int, by: Color, n: int) -> int
    decreases n,
{
    if n <= 0 {
        0
    } else {
        attackers_among(b, r, c, by, n - 1) + (if attacker_at(
            b,
            (n - 1) / 8,
            (n - 1) % 8,
            r,
            c,
            by,
        ) {
            1int
        } else {
            0int
        })
    }
}

/// The count of attackers is positive exactly if one of the squares counted
/// holds an attacker.
proof fn lemma_attackers_among(b: Squares, r: int, c: int, by: Color, n: int)
    requires
        0 <= n <= 64,
    ensures
        attackers_among(b, r, c, by, n) >= 0,
        attackers_among(b, r, c, by, n) > 0 <==> exists|fr: int, fc: int|
            on_board(fr, fc) && 8 * fr + fc < n && #[trigger] attacker_at(b, fr, fc, r, c, by),
    decreases n,
{
    if n > 0 {
        lemma_attackers_among(b, r, c, by, n - 1);
        let lr = (n - 1) / 8;
        let lc = (n - 1) % 8;
        if attackers_among(b, r, c, by, n) > 0 {
            if attacker_at(b, lr, lc, r, c, by) {
                assert(on_board(lr, lc) && 8 * lr + lc < n);
            } else {
                let (fr, fc) = choose|fr: int, fc: int|
                    on_board(fr, fc) && 8 * fr + fc < n - 1 && #[trigger] attacker_at(
                        b,
                        fr,
                        fc,
                        r,
                        c,
                        by,
                    );
                assert(on_board(fr, fc) && 8 * fr + fc < n && attacker_at(b, fr, fc, r, c, by));
            }
        }
        if exists|fr: int, fc: int|
            on_board(fr, fc) && 8 * fr + fc < n && #[trigger] attacker_at(b, fr, fc, r, c, by) {
            let (fr, fc) = choose|fr: int, fc: int|
                on_board(fr, fc) && 8 * fr + fc < n && #[trigger] attacker_at(b, fr, fc, r, c, by);
            if 8 * fr + fc < n - 1 {
                assert(on_board(fr, fc) && 8 * fr + fc < n - 1 && attacker_at(
                    b,
                    fr,
                    fc,
                    r,
                    c,
                    by,
                ));
            } else {
                assert(fr == lr && fc == lc);
            }
        }
    }
}

/// Attack consistency: a square of the board is attacked by a color exactly if
/// going through all 64 squares, and counting each piece of that color with a
/// capturing shape onto it, counts at least one.
pub proof fn lemma_attack_consistency(b: Squares, r: int, c: int, by: Color)
    requires
        b.len() == 64,
    ensures
        square_attacked(b, r, c, by) <==> on_board(r, c) && attackers_among(b, r, c, by, 64) > 0,
{
    lemma_attackers_among(b, r, c, by, 64);
    if square_attacked(b, r, c, by) {
        let (fr, fc) = choose|fr: int, fc: int| #[trigger] attacker_at(b, fr, fc, r, c, by);
        assert(on_board(fr, fc) && 8 * fr + fc < 64 && attacker_at(b, fr, fc, r, c, by));
    }
}

/// A move between squares of the board takes a well-formed state to a
/// well-formed state.
pub proof fn lemma_apply_move_wf(p: Position, sr: int, sc: int, er: int, ec: int, simulate: bool)
    requires
        p.wf(),
        on_board(sr, sc),
        on_board(er, ec),
    ensures
        apply_move(p, sr, sc, er, ec, simulate).wf(),
{
}

/// A castling right that is not held before a move is not held after it.
pub proof fn lemma_castling_right_never_returns(
    p: Position,
    sr: int,
    sc: int,
    er: int,
    ec: int,
    simulate: bool,
    color: Color,
    kingside: bool,
)
    requires
        !p.castling_right(color, kingside),
    ensures
        !apply_move(p, sr, sc, er, ec, simulate).castling_right(color, kingside),
{
}

/// After a move carried out for good there is an en-passant target exactly if
/// a pawn advanced two rows, and it is the square that the pawn skipped.
/// Whatever target stood before the move is gone.
pub proof fn lemma_en_passant_lasts_one_move(p: Position, sr: int, sc: int, er: int, ec: int)
    requires
        p.wf(),
        on_board(sr, sc),
        on_board(er, ec),
        p.at(sr, sc) is Some,
    ensures
        apply_move(p, sr, sc, er, ec, false).en_passant == (if p.at(sr, sc)->0.kind
            == PieceKind::Pawn && gap(er, sr) == 2 {
            Some(((sr + er) / 2, sc))
        } else {
            None
        }),
{
}

} // verus!
