//! Finding chess games on chess.com and lichess.org, and decoding the compact
//! move stream of chess.com live games into PGN.
//!
//! The decoder reads two tokens per ply (`utils`), classifies each ply as a
//! normal move, a capture, a castle, an en passant capture or a
//! promotion, plays it with the shakmaty
//! rules engine (`engine`) and writes the numbered move text with optional
//! clock comments (`pgn`).

pub mod board;
pub mod engine;
pub mod text;
pub mod api;
pub mod pgn;
pub mod utils;
pub mod finder;
pub mod cli;
pub mod client;
pub mod displayer;
