//! The board as JSON text, written by `serde_json`.

use vstd::prelude::*;
use vstd::string::*;
use crate::game::ChessGame;
use crate::piece::square_code;
use crate::position::{Squares, piece_at};

verus! {

/// The error type of `serde_json`. A value of it is carried through and turned
/// into its message; nothing is known of what it holds.
#[verifier::external_type_specification]
#[verifier::external_body]
pub struct ExJsonError(serde_json::Error);

/// The JSON text that `serde_json::to_string` gives for a list of rows of
/// integers, or `None` where it reports an error.
pub uninterp spec fn json_of_rows(rows: Seq<Seq<i32>>) -> Option<Seq<char>>;

/// Calls `serde_json::to_string` on a list of rows of integers. The call
/// serialises into a byte vector of its own and reads nothing but its
/// argument, so what it returns, text or error, depends on the rows alone:
/// that is all this contract claims. It does not say what the text is, nor
/// that the call succeeds.
#[verifier::external_body]
fn rows_to_json(rows: &Vec<Vec<i32>>) -> (r: Result<String, serde_json::Error>)
    ensures
        match r {
            Ok(text) => json_of_rows(rows.deep_view()) == Some(text@),
            Err(_) => json_of_rows(rows.deep_view()) is None,
        },
{
    serde_json::to_string(rows)
}

/// The message of a `serde_json::Error`, as its `Display` writes it. Nothing
/// is claimed of the message.
#[verifier::external_body]
fn json_error_message(error: &serde_json::Error) -> (message: String) {
    error.to_string()
}

/// The JSON object that reports an error by its message.
pub open spec fn error_report(message: Seq<char>) -> Seq<char> {
    "{\"error\": \""@ + message + "\"}"@
}

/// The integer codes of the board, row by row.
pub open spec fn code_rows(b: Squares) -> Seq<Seq<i32>> {
    Seq::new(8, |r: int| Seq::new(8, |c: int| square_code(piece_at(b, r, c)) as i32))
}

/// What is handed out for the outcome of writing the board as JSON: the text
/// itself, or a JSON object that reports the error by its message.
pub fn json_or_error_report(outcome: Result<String, String>) -> (text: String)
    ensures
        match outcome {
            Ok(json) => text@ == json@,
            Err(message) => text@ == error_report(message@),
        },
{
    match outcome {
        Ok(json) => json,
        Err(message) => {
            let mut report: String = String::from_str("{\"error\": \"");
            report.append(message.as_str());
            report.append("\"}");
            report
        },
    }
}

impl ChessGame {
    /// The integer codes of the board as eight rows of eight.
    pub fn get_board_rows(&self) -> (rows: Vec<Vec<i32>>)
        ensures
            rows.deep_view() == code_rows(self@.squares),
    {
        let mut rows: Vec<Vec<i32>> = Vec::new();
        let mut r: usize = 0;
        while r < 8
            invariant
                r <= 8,
                rows@.len() == r,
                forall|i: int| 0 <= i < r ==> (#[trigger] rows@[i])@ == code_rows(self@.squares)[i],
            decreases 8 - r,
        {
            let mut row: Vec<i32> = Vec::new();
            let mut c: usize = 0;
            while c < 8
                invariant
                    r < 8,
                    c <= 8,
                    row@.len() == c,
                    forall|j: int|
                        0 <= j < c ==> #[trigger] row@[j] == square_code(
                            piece_at(self@.squares, r as int, j),
                        ),
                decreases 8 - c,
            {
                row.push(self.get_piece(r, c));
                c += 1;
            }
            assert(row@ =~= code_rows(self@.squares)[r as int]);
            rows.push(row);
            r += 1;
        }
        assert(rows.deep_view() =~~= code_rows(self@.squares));
        rows
    }

    /// The board as JSON: a list of eight rows, each a list of the eight
    /// integer codes of its squares. Should the serialiser report an error,
    /// the result is a JSON object that holds its message under `error`.
    pub fn get_board_json(&self) -> (text: String)
        ensures
            match json_of_rows(code_rows(self@.squares)) {
                Some(json) => text@ == json,
                None => exists|message: Seq<char>| text@ == error_report(message),
            },
    {
        let rows: Vec<Vec<i32>> = self.get_board_rows();
        let outcome: Result<String, String> = match rows_to_json(&rows) {
            Ok(json) => Ok(json),
            Err(error) => Err(json_error_message(&error)),
        };
        json_or_error_report(outcome)
    }
}

} // verus!
