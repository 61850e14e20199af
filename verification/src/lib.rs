//! An engine-independent model of a 2D chess board: the initial 8x8 layout
//! (tile shading, starting pieces, render positions) and in-place move
//! application with capture reporting. No legality checking lives here; a
//! rules layer, if ever written, would validate before calling `apply_move`.

pub mod board;
pub mod laws;
pub mod moves;
pub mod piece;
