//! Move application: relocating an occupant in place and reporting the
//! occupancy delta to the caller (typically a rendering layer that must
//! despawn a captured sprite and relocate the moving one).

use vstd::prelude::*;

use crate::board::{cell_of, in_range, spot, wf_board, with_occupant, Board, Cell};
use crate::piece::Piece;

verus! {

/// The one failure this layer defines: a coordinate off the 8x8 grid. The
/// call is rejected outright rather than clamped, so a cell's grid coordinate
/// stays a stable identity.
#[derive(Clone, Copy, PartialEq, Eq, Structural, Debug)]
pub enum MoveError {
    OutOfRange,
}

/// What a move did, in terms a caller can act on: which piece moved, the
/// coordinate it vacated, the coordinate it now occupies, and the piece that
/// stood on the destination (`None` when the destination was empty).
#[derive(Clone, Copy, PartialEq, Eq, Debug)]
pub struct MoveResult {
    pub moved: Option<Piece>,
    pub vacated: (usize, usize),
    pub occupied: (usize, usize),
    pub captured: Option<Piece>,
}

/// The board after moving the occupant of `(from_row, from_col)` onto
/// `(to_row, to_col)`: the source is emptied, the destination takes the
/// source's occupant, and no other field of any cell changes. Emptying the
/// source first makes a move onto itself leave the board as it was.
pub open spec fn moved_board(
    s: Seq<Cell>,
    from_row: int,
    from_col: int,
    to_row: int,
    to_col: int,
) -> Seq<Cell> {
    let moving = cell_of(s, from_row, from_col).occupant;
    s.update(
        spot(from_row, from_col),
        with_occupant(cell_of(s, from_row, from_col), None),
    ).update(spot(to_row, to_col), with_occupant(cell_of(s, to_row, to_col), moving))
}

/// A move touches occupants only, so it preserves the board invariant.
proof fn lemma_moved_board_wf(s: Seq<Cell>, from_row: int, from_col: int, to_row: int, to_col: int)
    requires
        wf_board(s),
        in_range(from_row, from_col),
        in_range(to_row, to_col),
    ensures
        wf_board(moved_board(s, from_row, from_col, to_row, to_col)),
{
    let t = moved_board(s, from_row, from_col, to_row, to_col);
    assert forall|r: int, c: int| in_range(r, c) implies (#[trigger] cell_of(t, r, c)).grid_coord
        == cell_of(s, r, c).grid_coord && cell_of(t, r, c).tile_color == cell_of(
        s,
        r,
        c,
    ).tile_color by {
        assert(0 <= spot(r, c) < 64);
        assert(0 <= spot(from_row, from_col) < 64);
        assert(0 <= spot(to_row, to_col) < 64);
    }
}

/// A move from a square onto itself leaves the board exactly as it was.
/// (The source is emptied before the destination takes the moving occupant,
/// so the occupant is put straight back.)
pub proof fn lemma_noop_move(s: Seq<Cell>, row: int, col: int)
    requires
        s.len() == 64,
        in_range(row, col),
    ensures
        moved_board(s, row, col, row, col) == s,
{
    let t = moved_board(s, row, col, row, col);
    assert forall|i: int| 0 <= i < s.len() implies t[i] == s[i] by {
        if i == spot(row, col) {
            assert(t[i] == with_occupant(cell_of(s, row, col), cell_of(s, row, col).occupant));
        }
    }
    assert(t =~= s);
}

/// Moves the occupant of `from` onto `to`, in place.
///
/// With both coordinates on the board the call always succeeds: the
/// destination's occupant is replaced by the source's (capture), the source
/// is emptied, and the returned `MoveResult` reports the moving occupant, the
/// two coordinates, and what stood on the destination beforehand. Moving an
/// empty cell is allowed at this layer and relocates "no piece"; a move onto
/// the source square itself changes nothing. With either coordinate off the
/// board the call fails with `OutOfRange` and the board is untouched. No
/// legality checking happens here.
pub fn apply_move(board: &mut Board, from: (usize, usize), to: (usize, usize)) -> (r: Result<
    MoveResult,
    MoveError,
>)
    requires
        old(board).wf(),
    ensures
        final(board).wf(),
        in_range(from.0 as int, from.1 as int) && in_range(to.0 as int, to.1 as int) ==> r == Ok::<
            MoveResult,
            MoveError,
        >(
            (MoveResult {
                moved: old(board).cell_at(from.0 as int, from.1 as int).occupant,
                vacated: from,
                occupied: to,
                captured: old(board).cell_at(to.0 as int, to.1 as int).occupant,
            }),
        ) && final(board)@ == moved_board(
            old(board)@,
            from.0 as int,
            from.1 as int,
            to.0 as int,
            to.1 as int,
        ),
        !(in_range(from.0 as int, from.1 as int) && in_range(to.0 as int, to.1 as int)) ==> r
            == Err::<MoveResult, MoveError>(MoveError::OutOfRange) && final(board)@ == old(
            board,
        )@,
{
    if from.0 >= 8 || from.1 >= 8 || to.0 >= 8 || to.1 >= 8 {
        return Err(MoveError::OutOfRange);
    }
    let moving = board.at(from.0, from.1).occupant;
    let captured = board.at(to.0, to.1).occupant;
    if from.0 == to.0 && from.1 == to.1 {
        proof {
            lemma_noop_move(board@, from.0 as int, from.1 as int);
        }
    } else {
        let ghost s0: Seq<Cell> = board@;
        board.set_occupant(from.0, from.1, None);
        let ghost s1: Seq<Cell> = board@;
        board.set_occupant(to.0, to.1, moving);
        proof {
            lemma_spot_distinct(from.0 as int, from.1 as int, to.0 as int, to.1 as int);
            assert(cell_of(s1, to.0 as int, to.1 as int) == cell_of(s0, to.0 as int, to.1 as int));
            assert(board@ == moved_board(
                s0,
                from.0 as int,
                from.1 as int,
                to.0 as int,
                to.1 as int,
            ));
        }
    }
    proof {
        lemma_moved_board_wf(
            old(board)@,
            from.0 as int,
            from.1 as int,
            to.0 as int,
            to.1 as int,
        );
    }
    Ok(MoveResult { moved: moving, vacated: from, occupied: to, captured })
}

/// Distinct on-board coordinates have distinct row-major indices.
proof fn lemma_spot_distinct(r1: int, c1: int, r2: int, c2: int)
    requires
        in_range(r1, c1),
        in_range(r2, c2),
        !(r1 == r2 && c1 == c2),
    ensures
        spot(r1, c1) != spot(r2, c2),
{
}

} // verus!
