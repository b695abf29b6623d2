use vstd::prelude::*;

verus! {

/// Width of the window, in pixels.
pub const SCREEN_WIDTH: u32 = 410;

/// Height of the window, in pixels.
pub const SCREEN_HEIGHT: u32 = 670;

/// Distance, in pixels, between the window's edge and the playing field.
pub const MARGIN: u32 = 10;

/// Side of one brick, in pixels.
pub const BRICK_SIZE: i32 = 25;

/// Gap between two neighbouring bricks, in pixels.
pub const BRICKS_PAD: i32 = 1;

/// Number of brick columns on the board.
pub const BOARD_BRICK_WIDTH: usize = 15;

/// Number of brick rows on the board.
pub const BOARD_BRICK_HEIGHT: usize = 25;

/// The pixel coordinate at which the cell `cell` (a column or a row) starts.
pub open spec fn screen_coord(cell: int) -> int {
    MARGIN + cell * (BRICK_SIZE + BRICKS_PAD)
}

/// The four sides of the playing field's frame, each as
/// `(x_start, y_start, x_end, y_end)` in pixels: top, right, bottom, left.
pub open spec fn border_segments_spec() -> Seq<(u32, u32, u32, u32)> {
    let right = (SCREEN_WIDTH - MARGIN) as u32;
    let bottom = (SCREEN_HEIGHT - MARGIN) as u32;
    seq![
        (MARGIN, MARGIN, right, MARGIN),
        (right, MARGIN, right, bottom),
        (right, bottom, MARGIN, bottom),
        (MARGIN, bottom, MARGIN, MARGIN),
    ]
}

/// The frame drawn around the playing field: four segments, top, right,
/// bottom and left, each as `(x_start, y_start, x_end, y_end)` in pixels.
pub fn border_segments() -> (res: Vec<(u32, u32, u32, u32)>)
    ensures
        res@ == border_segments_spec(),
{
    let right = SCREEN_WIDTH - MARGIN;
    let bottom = SCREEN_HEIGHT - MARGIN;
    let mut res: Vec<(u32, u32, u32, u32)> = Vec::new();
    res.push((MARGIN, MARGIN, right, MARGIN));
    res.push((right, MARGIN, right, bottom));
    res.push((right, bottom, MARGIN, bottom));
    res.push((MARGIN, bottom, MARGIN, MARGIN));
    res
}

/// Screen coordinates are affine in the cell: cell 0 starts at the margin,
/// and neighbouring cells start exactly one brick and one gap apart, so no
/// two cells share a coordinate and their order is kept.
pub proof fn lemma_screen_coord_affine(c: int, d: int)
    ensures
        screen_coord(0) == MARGIN,
        screen_coord(c + 1) == screen_coord(c) + BRICK_SIZE + BRICKS_PAD,
        screen_coord(d) - screen_coord(c) == (d - c) * (BRICK_SIZE + BRICKS_PAD),
        c < d ==> screen_coord(c) < screen_coord(d),
{
    assert((d - c) * 26 == d * 26 - c * 26) by (nonlinear_arith);
}

} // verus!
