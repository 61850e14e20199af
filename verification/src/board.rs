//! The board itself: cells, the well-formedness invariant, and the layout
//! routine that produces the initial position.
//!
//! Render positions are kept in half-units of the world unit: the stored pair
//! is twice the cell-center coordinate, so centers stay exact integers even
//! for an odd tile size. A renderer divides by two (in its own floating-point
//! world) when placing sprites.

use vstd::prelude::*;

use crate::piece::{Color, Piece, PieceKind};

verus! {

/// One square of the board. `tile_color`, `grid_coord` and `render_pos` are
/// fixed at creation; only `occupant` changes over the life of the board.
#[derive(Clone, Copy, PartialEq, Eq, Debug)]
pub struct Cell {
    /// Shade of the square, alternating in a checkerboard pattern.
    pub tile_color: Color,
    /// The piece standing on the square, if any.
    pub occupant: Option<Piece>,
    /// `(row, col)` identity of the square, equal to its position in the grid.
    pub grid_coord: (usize, usize),
    /// Center of the square in half-units: twice the world coordinate.
    pub render_pos: (i64, i64),
}

/// The 8x8 grid, stored row-major: the cell at `(row, col)` sits at index
/// `row * 8 + col`.
#[derive(Clone, PartialEq, Eq, Debug)]
pub struct Board {
    cells: Vec<Cell>,
}

/// Largest magnitude accepted for the two layout parameters; keeps every
/// render coordinate (at most `18 * COORD_LIMIT` in magnitude) inside `i64`.
pub const COORD_LIMIT: i64 = 0x0400_0000_0000_0000;

/// Row-major index of `(row, col)`.
pub open spec fn spot(row: int, col: int) -> int {
    row * 8 + col
}

/// Both coordinates on the board.
pub open spec fn in_range(row: int, col: int) -> bool {
    0 <= row < 8 && 0 <= col < 8
}

/// The cell of a row-major board sequence at `(row, col)`.
pub open spec fn cell_of(s: Seq<Cell>, row: int, col: int) -> Cell {
    s[spot(row, col)]
}

/// Shade of `(row, col)`: white on even `row + col` (so the corner `(0, 0)`
/// is white), black on odd, alternating between any two adjacent squares.
pub open spec fn tile_color_at(row: int, col: int) -> Color {
    if (row + col) % 2 == 0 {
        Color::White
    } else {
        Color::Black
    }
}

/// Kind of the back-rank piece standing in `col` at the start of a game.
pub open spec fn back_rank_kind(col: int) -> PieceKind {
    if col == 0 || col == 7 {
        PieceKind::Rook
    } else if col == 1 || col == 6 {
        PieceKind::Knight
    } else if col == 2 || col == 5 {
        PieceKind::Bishop
    } else if col == 3 {
        PieceKind::Queen
    } else {
        PieceKind::King
    }
}

/// The standard starting occupant of `(row, col)`: black back rank on row 0,
/// black pawns on row 1, white pawns on row 6, white back rank on row 7,
/// everything else empty.
pub open spec fn initial_occupant(row: int, col: int) -> Option<Piece> {
    if row == 0 {
        Some(Piece { color: Color::Black, kind: back_rank_kind(col) })
    } else if row == 1 {
        Some(Piece { color: Color::Black, kind: PieceKind::Pawn })
    } else if row == 6 {
        Some(Piece { color: Color::White, kind: PieceKind::Pawn })
    } else if row == 7 {
        Some(Piece { color: Color::White, kind: back_rank_kind(col) })
    } else {
        None
    }
}

/// Horizontal center of column `col`, in half-units: twice
/// `-board_extent / 2 + tile_size / 2 + col * tile_size`.
pub open spec fn render_x(tile_size: int, board_extent: int, col: int) -> int {
    tile_size - board_extent + 2 * col * tile_size
}

/// Vertical center of row `row`, in half-units: twice
/// `board_extent / 2 - tile_size / 2 - row * tile_size` (rows run downward).
pub open spec fn render_y(tile_size: int, board_extent: int, row: int) -> int {
    board_extent - tile_size - 2 * row * tile_size
}

/// The cell `(row, col)` of a freshly created board.
pub open spec fn initial_cell(tile_size: int, board_extent: int, row: int, col: int) -> Cell {
    Cell {
        tile_color: tile_color_at(row, col),
        occupant: initial_occupant(row, col),
        grid_coord: (row as usize, col as usize),
        render_pos: (
            render_x(tile_size, board_extent, col) as i64,
            render_y(tile_size, board_extent, row) as i64,
        ),
    }
}

/// Invariant of every board this library hands out or accepts: 64 cells,
/// each carrying its own grid coordinate and the checkerboard shade.
pub open spec fn wf_board(s: Seq<Cell>) -> bool {
    &&& s.len() == 64
    &&& forall|row: int, col: int|
        in_range(row, col) ==> (#[trigger] cell_of(s, row, col)).grid_coord == (
        row as usize,
        col as usize,
        )
    &&& forall|row: int, col: int|
        in_range(row, col) ==> (#[trigger] cell_of(s, row, col)).tile_color == tile_color_at(
            row,
            col,
        )
}

/// A board whose every cell is the initial cell for these layout parameters.
pub open spec fn is_initial_board(b: Board, tile_size: int, board_extent: int) -> bool {
    &&& b@.len() == 64
    &&& forall|row: int, col: int|
        in_range(row, col) ==> #[trigger] b.cell_at(row, col) == initial_cell(
            tile_size,
            board_extent,
            row,
            col,
        )
}

impl View for Board {
    type V = Seq<Cell>;

    closed spec fn view(&self) -> Seq<Cell> {
        self.cells@
    }
}

impl Board {
    /// The board's invariant; see `wf_board`.
    pub open spec fn wf(&self) -> bool {
        wf_board(self@)
    }

    /// The cell at `(row, col)`, as a spec value.
    pub open spec fn cell_at(&self, row: int, col: int) -> Cell {
        cell_of(self@, row, col)
    }

    /// Reads the cell at `(row, col)`.
    pub fn at(&self, row: usize, col: usize) -> (c: Cell)
        requires
            row < 8,
            col < 8,
            self@.len() == 64,
        ensures
            c == self.cell_at(row as int, col as int),
    {
        self.cells[row * 8 + col]
    }

    /// Replaces the occupant of `(row, col)`, leaving every other field and
    /// every other cell as it was.
    pub(crate) fn set_occupant(&mut self, row: usize, col: usize, occ: Option<Piece>)
        requires
            row < 8,
            col < 8,
            old(self)@.len() == 64,
        ensures
            final(self)@ == old(self)@.update(
                spot(row as int, col as int),
                with_occupant(cell_of(old(self)@, row as int, col as int), occ),
            ),
    {
        let i: usize = row * 8 + col;
        let cur = self.cells[i];
        self.cells.set(
            i,
            Cell {
                tile_color: cur.tile_color,
                occupant: occ,
                grid_coord: cur.grid_coord,
                render_pos: cur.render_pos,
            },
        );
    }
}

/// `c` with its occupant replaced by `occ`.
pub open spec fn with_occupant(c: Cell, occ: Option<Piece>) -> Cell {
    Cell { tile_color: c.tile_color, occupant: occ, grid_coord: c.grid_coord, render_pos: c.render_pos }
}

/// Render coordinates move by two half-units of tile size per row or column.
proof fn lemma_render_step(tile_size: int, board_extent: int, k: int)
    ensures
        render_x(tile_size, board_extent, k + 1) == render_x(tile_size, board_extent, k) + 2
            * tile_size,
        render_y(tile_size, board_extent, k + 1) == render_y(tile_size, board_extent, k) - 2
            * tile_size,
{
    assert(2 * (k + 1) * tile_size == 2 * k * tile_size + 2 * tile_size) by (nonlinear_arith);
}

/// With both layout parameters bounded by `COORD_LIMIT`, every render
/// coordinate over rows and columns 0 through 8 stays within `i64`.
proof fn lemma_render_bounds(tile_size: int, board_extent: int, k: int)
    requires
        -COORD_LIMIT <= tile_size <= COORD_LIMIT,
        -COORD_LIMIT <= board_extent <= COORD_LIMIT,
        0 <= k <= 8,
    ensures
        i64::MIN <= render_x(tile_size, board_extent, k) <= i64::MAX,
        i64::MIN <= render_y(tile_size, board_extent, k) <= i64::MAX,
{
    assert(-18 * (COORD_LIMIT as int) <= tile_size - board_extent + 2 * k * tile_size <= 18 * (
    COORD_LIMIT as int)) by (nonlinear_arith)
        requires
            -COORD_LIMIT <= tile_size <= COORD_LIMIT,
            -COORD_LIMIT <= board_extent <= COORD_LIMIT,
            0 <= k <= 8,
    ;
    assert(-18 * (COORD_LIMIT as int) <= board_extent - tile_size - 2 * k * tile_size <= 18 * (
    COORD_LIMIT as int)) by (nonlinear_arith)
        requires
            -COORD_LIMIT <= tile_size <= COORD_LIMIT,
            -COORD_LIMIT <= board_extent <= COORD_LIMIT,
            0 <= k <= 8,
    ;
}

/// Kind of the back-rank piece standing in `col` at the start of a game.
fn back_rank(col: usize) -> (k: PieceKind)
    requires
        col < 8,
    ensures
        k == back_rank_kind(col as int),
{
    match col {
        0 | 7 => PieceKind::Rook,
        1 | 6 => PieceKind::Knight,
        2 | 5 => PieceKind::Bishop,
        3 => PieceKind::Queen,
        _ => PieceKind::King,
    }
}

/// The standard starting occupant of `(row, col)`.
fn starting_occupant(row: usize, col: usize) -> (o: Option<Piece>)
    requires
        row < 8,
        col < 8,
    ensures
        o == initial_occupant(row as int, col as int),
{
    match row {
        0 => Some(Piece { color: Color::Black, kind: back_rank(col) }),
        1 => Some(Piece { color: Color::Black, kind: PieceKind::Pawn }),
        6 => Some(Piece { color: Color::White, kind: PieceKind::Pawn }),
        7 => Some(Piece { color: Color::White, kind: back_rank(col) }),
        _ => None,
    }
}

/// Builds the initial board for the given layout: checkerboard shades with a
/// white corner at `(0, 0)`, the standard starting pieces, each cell tagged
/// with its own grid coordinate, and render positions walking right and down
/// from the top-left cell center.
///
/// `tile_size` is the width of one cell and `board_extent` the width of the
/// whole board, in world units; render positions come back in half-units of
/// the same scale. The function is total over its numeric inputs (a zero or
/// negative size gives a degenerate but well-defined board); the bound on the
/// two parameters only keeps the coordinate arithmetic inside `i64`.
#[verifier::loop_isolation(false)]
pub fn create_initial_board(tile_size: i64, board_extent: i64) -> (b: Board)
    requires
        -COORD_LIMIT <= tile_size <= COORD_LIMIT,
        -COORD_LIMIT <= board_extent <= COORD_LIMIT,
    ensures
        b.wf(),
        is_initial_board(b, tile_size as int, board_extent as int),
{
    let ghost ts: int = tile_size as int;
    let ghost ext: int = board_extent as int;
    let mut cells: Vec<Cell> = Vec::new();
    // Doubled step, start-of-row x, and running y, all in half-units.
    let step: i64 = 2 * tile_size;
    let x0: i64 = tile_size - board_extent;
    let mut y: i64 = board_extent - tile_size;
    let mut shade = Color::White;
    let mut row: usize = 0;
    while row < 8
        invariant
            row <= 8,
            cells@.len() == row * 8,
            y as int == render_y(ts, ext, row as int),
            shade == tile_color_at(row as int, 0),
            forall|r: int, c: int|
                0 <= r < row && 0 <= c < 8 ==> #[trigger] cell_of(cells@, r, c) == initial_cell(
                    ts,
                    ext,
                    r,
                    c,
                ),
        decreases 8 - row,
    {
        let mut x: i64 = x0;
        let mut col: usize = 0;
        while col < 8
            invariant
                row < 8,
                col <= 8,
                cells@.len() == row * 8 + col,
                x as int == render_x(ts, ext, col as int),
                y as int == render_y(ts, ext, row as int),
                shade == tile_color_at(row as int, col as int),
                forall|r: int, c: int|
                    0 <= r < row && 0 <= c < 8 ==> #[trigger] cell_of(cells@, r, c)
                        == initial_cell(ts, ext, r, c),
                forall|c: int|
                    0 <= c < col ==> #[trigger] cell_of(cells@, row as int, c) == initial_cell(
                        ts,
                        ext,
                        row as int,
                        c,
                    ),
            decreases 8 - col,
        {
            let cell = Cell {
                tile_color: shade,
                occupant: starting_occupant(row, col),
                grid_coord: (row, col),
                render_pos: (x, y),
            };
            let ghost pre: Seq<Cell> = cells@;
            cells.push(cell);
            proof {
                assert(cells@ == pre.push(cell));
                assert(spot(row as int, col as int) == row * 8 + col);
                assert(cell_of(cells@, row as int, col as int) == cell);
                assert(cell == initial_cell(ts, ext, row as int, col as int));
                assert forall|r: int, c: int| 0 <= r < row && 0 <= c < 8 implies #[trigger] cell_of(
                    cells@,
                    r,
                    c,
                ) == initial_cell(ts, ext, r, c) by {
                    assert(0 <= spot(r, c) < row * 8);
                    assert(cell_of(pre, r, c) == initial_cell(ts, ext, r, c));
                    assert(cells@[spot(r, c)] == pre[spot(r, c)]);
                }
                assert forall|c: int| 0 <= c < col + 1 implies #[trigger] cell_of(
                    cells@,
                    row as int,
                    c,
                ) == initial_cell(ts, ext, row as int, c) by {
                    assert(row * 8 <= spot(row as int, c) <= row * 8 + col);
                    if c < col {
                        assert(cell_of(pre, row as int, c) == initial_cell(ts, ext, row as int, c));
                        assert(cells@[spot(row as int, c)] == pre[spot(row as int, c)]);
                    }
                }
                lemma_render_step(ts, ext, col as int);
                lemma_render_bounds(ts, ext, col as int + 1);
            }
            x = x + step;
            shade = flip(shade);
            col = col + 1;
        }
        proof {
            lemma_render_step(ts, ext, row as int);
            lemma_render_bounds(ts, ext, row as int + 1);
        }
        y = y - step;
        shade = flip(shade);
        row = row + 1;
    }
    let b = Board { cells };
    proof {
        assert forall|r: int, c: int| in_range(r, c) implies #[trigger] b.cell_at(r, c)
            == initial_cell(ts, ext, r, c) by {
            assert(cell_of(b@, r, c) == initial_cell(ts, ext, r, c));
        }
        assert(b.wf()) by {
            assert forall|r: int, c: int| in_range(r, c) implies (#[trigger] cell_of(
                b@,
                r,
                c,
            )).grid_coord == (r as usize, c as usize) && cell_of(b@, r, c).tile_color
                == tile_color_at(r, c) by {
                assert(cell_of(b@, r, c) == initial_cell(ts, ext, r, c));
            }
        }
    }
    b
}

/// The other shade.
fn flip(c: Color) -> (o: Color)
    ensures
        o == (if c == Color::White {
            Color::Black
        } else {
            Color::White
        }),
{
    if c == Color::White {
        Color::Black
    } else {
        Color::White
    }
}

} // verus!
