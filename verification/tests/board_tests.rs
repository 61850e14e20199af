use chessboard::board::{create_initial_board, Board};
use chessboard::piece::{Color, Piece, PieceKind};

fn standard_board() -> Board {
    create_initial_board(100, 800)
}

#[test]
fn grid_coords_match_indices() {
    let b = standard_board();
    for row in 0..8 {
        for col in 0..8 {
            assert_eq!(b.at(row, col).grid_coord, (row, col));
        }
    }
}

#[test]
fn checkerboard_alternates() {
    let b = standard_board();
    for row in 0..8 {
        for col in 0..7 {
            assert_ne!(b.at(row, col).tile_color, b.at(row, col + 1).tile_color);
        }
    }
    for row in 0..7 {
        for col in 0..8 {
            assert_ne!(b.at(row, col).tile_color, b.at(row + 1, col).tile_color);
        }
    }
}

#[test]
fn corner_is_white() {
    let b = standard_board();
    assert_eq!(b.at(0, 0).tile_color, Color::White);
    assert_eq!(b.at(0, 1).tile_color, Color::Black);
    assert_eq!(b.at(7, 7).tile_color, Color::White);
}

#[test]
fn starting_layout_back_ranks() {
    let b = standard_board();
    let order = [
        PieceKind::Rook,
        PieceKind::Knight,
        PieceKind::Bishop,
        PieceKind::Queen,
        PieceKind::King,
        PieceKind::Bishop,
        PieceKind::Knight,
        PieceKind::Rook,
    ];
    for col in 0..8 {
        assert_eq!(
            b.at(0, col).occupant,
            Some(Piece { color: Color::Black, kind: order[col] })
        );
        assert_eq!(
            b.at(7, col).occupant,
            Some(Piece { color: Color::White, kind: order[col] })
        );
    }
    assert_eq!(
        b.at(0, 0).occupant,
        Some(Piece { color: Color::Black, kind: PieceKind::Rook })
    );
    assert_eq!(
        b.at(7, 4).occupant,
        Some(Piece { color: Color::White, kind: PieceKind::King })
    );
}

#[test]
fn starting_layout_pawns_and_empty_middle() {
    let b = standard_board();
    for col in 0..8 {
        assert_eq!(
            b.at(1, col).occupant,
            Some(Piece { color: Color::Black, kind: PieceKind::Pawn })
        );
        assert_eq!(
            b.at(6, col).occupant,
            Some(Piece { color: Color::White, kind: PieceKind::Pawn })
        );
        for row in 2..6 {
            assert_eq!(b.at(row, col).occupant, None);
        }
    }
}

#[test]
fn render_positions_exact() {
    // Tile size 100 and extent 800; positions come back doubled (half-units),
    // so the top-left cell center (-350, 350) is stored as (-700, 700).
    let b = standard_board();
    assert_eq!(b.at(0, 0).render_pos, (-700, 700));
    assert_eq!(b.at(0, 1).render_pos, (-500, 700));
    assert_eq!(b.at(1, 0).render_pos, (-700, 500));
    assert_eq!(b.at(7, 7).render_pos, (700, -700));
    assert_eq!(b.at(3, 4).render_pos, (100, 100));
    // Converted to world units, the corner really is (-350.0, 350.0).
    let (x, y) = b.at(0, 0).render_pos;
    assert_eq!((x as f64 / 2.0, y as f64 / 2.0), (-350.0, 350.0));
}

#[test]
fn render_positions_deterministic() {
    let b1 = create_initial_board(100, 800);
    let b2 = create_initial_board(100, 800);
    for row in 0..8 {
        for col in 0..8 {
            assert_eq!(b1.at(row, col).render_pos, b2.at(row, col).render_pos);
        }
    }
    assert_eq!(b1, b2);
}

#[test]
fn degenerate_zero_tile_size() {
    let b = create_initial_board(0, 800);
    for row in 0..8 {
        for col in 0..8 {
            assert_eq!(b.at(row, col).render_pos, (-800, 800));
            assert_eq!(b.at(row, col).grid_coord, (row, col));
        }
    }
}

#[test]
fn odd_tile_size_stays_exact() {
    // Half-units keep an odd tile size exact: the first center of a 7-wide
    // tile on a 56-wide board is (-24.5, 24.5), stored as (-49, 49).
    let b = create_initial_board(7, 56);
    assert_eq!(b.at(0, 0).render_pos, (-49, 49));
    assert_eq!(b.at(0, 1).render_pos, (-35, 49));
}
