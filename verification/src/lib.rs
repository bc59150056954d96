//! A chess rules engine: move legality, move execution, check, checkmate and
//! stalemate detection, and the six-field positional notation.

pub mod constants;
pub mod piece;
pub mod utils;
pub mod position;
pub mod rules;
pub mod game;
pub mod validation;
pub mod moves;
pub mod notation;
pub mod fen;
pub mod round_trip;
pub mod json;
pub mod laws;

pub use crate::game::ChessGame;
pub use crate::notation::FenError;
pub use crate::piece::{Color, Piece, PieceKind};
pub use crate::rules::{MoveError, PromotionError};
