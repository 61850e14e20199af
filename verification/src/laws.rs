//! Board-wide laws, stated once over the spec model and proved for every
//! well-formed board, not just for chosen values.

use vstd::prelude::*;

use crate::board::{
    cell_of, in_range, initial_cell, is_initial_board, spot, tile_color_at, Board,
};

verus! {

/// Every cell of a well-formed board carries its own grid coordinate; in
/// particular this holds of every cell of a freshly created board.
pub proof fn lemma_grid_coord(b: Board, row: int, col: int)
    requires
        b.wf(),
        in_range(row, col),
    ensures
        b.cell_at(row, col).grid_coord == (row as usize, col as usize),
{
    assert(cell_of(b@, row, col).grid_coord == (row as usize, col as usize));
}

/// Checkerboard: any two cells adjacent along a row or a column (coordinates
/// differing by one in exactly one component) have different shades.
pub proof fn lemma_checkerboard(b: Board, r1: int, c1: int, r2: int, c2: int)
    requires
        b.wf(),
        in_range(r1, c1),
        in_range(r2, c2),
        (r1 == r2 && (c2 == c1 + 1 || c1 == c2 + 1)) || (c1 == c2 && (r2 == r1 + 1 || r1 == r2
            + 1)),
    ensures
        b.cell_at(r1, c1).tile_color != b.cell_at(r2, c2).tile_color,
{
    assert(cell_of(b@, r1, c1).tile_color == tile_color_at(r1, c1));
    assert(cell_of(b@, r2, c2).tile_color == tile_color_at(r2, c2));
    assert((r1 + c1) % 2 != (r2 + c2) % 2);
}

/// Layout determinism: the initial board is a function of the two layout
/// parameters alone, so two boards built for the same parameters agree cell
/// for cell — in particular on every render position.
pub proof fn lemma_layout_deterministic(b1: Board, b2: Board, tile_size: int, board_extent: int)
    requires
        is_initial_board(b1, tile_size, board_extent),
        is_initial_board(b2, tile_size, board_extent),
    ensures
        b1@ == b2@,
{
    assert forall|i: int| 0 <= i < 64 implies b1@[i] == b2@[i] by {
        let r = i / 8;
        let c = i % 8;
        assert(in_range(r, c));
        assert(spot(r, c) == i);
        assert(b1.cell_at(r, c) == initial_cell(tile_size, board_extent, r, c));
        assert(b2.cell_at(r, c) == initial_cell(tile_size, board_extent, r, c));
    }
    assert(b1@ =~= b2@);
}

} // verus!
