use vstd::prelude::*;

use crate::geometry::{screen_coord, BRICKS_PAD, BRICK_SIZE, MARGIN};

verus! {

/// One square of a piece, placed relative to the piece's own position.
#[derive(Clone, Copy, Debug, PartialEq, Eq, Structural)]
pub struct Brick {
    pub brick_pos_x: i32,
    pub brick_pos_y: i32,
}

/// Whether the screen coordinate of cell `origin + offset` can be computed in
/// `i32` arithmetic without overflow.
pub open spec fn fits_screen(origin: int, offset: int) -> bool {
    &&& i32::MIN <= origin + offset <= i32::MAX
    &&& i32::MIN <= (origin + offset) * (BRICK_SIZE + BRICKS_PAD) <= i32::MAX
    &&& i32::MIN <= screen_coord(origin + offset) <= i32::MAX
}

/// Whether the screen coordinate of cell `origin + offset` can be computed in
/// `i32` (`fits_screen`).
pub fn fits_screen_check(origin: i32, offset: i32) -> (res: bool)
    ensures
        res == fits_screen(origin as int, offset as int),
{
    let cell: i64 = origin as i64 + offset as i64;
    let step: i64 = (BRICK_SIZE + BRICKS_PAD) as i64;
    let lo: i64 = i32::MIN as i64;
    let hi: i64 = i32::MAX as i64;
    if cell < lo || cell > hi {
        return false;
    }
    let scaled: i64 = cell * step;
    let coord: i64 = 10 + scaled;
    assert(coord == screen_coord(cell as int));
    lo <= scaled && scaled <= hi && lo <= coord && coord <= hi
}

impl Brick {
    /// A brick at offset `(pos_x, pos_y)` from its piece.
    pub fn new(pos_x: i32, pos_y: i32) -> (res: Self)
        ensures
            res.brick_pos_x == pos_x,
            res.brick_pos_y == pos_y,
    {
        Brick { brick_pos_x: pos_x, brick_pos_y: pos_y }
    }

    /// The pixel at which this brick's square starts on screen, when its piece
    /// stands at cell `(orig_x, orig_y)`.
    pub fn screen_pos(&self, orig_x: i32, orig_y: i32) -> (res: (i32, i32))
        requires
            fits_screen(orig_x as int, self.brick_pos_x as int),
            fits_screen(orig_y as int, self.brick_pos_y as int),
        ensures
            res.0 == screen_coord(orig_x + self.brick_pos_x),
            res.1 == screen_coord(orig_y + self.brick_pos_y),
    {
        let step: i32 = BRICK_SIZE + BRICKS_PAD;
        let margin: i32 = 10;
        assert(margin == MARGIN);
        let x = margin + (orig_x + self.brick_pos_x) * step;
        let y = margin + (orig_y + self.brick_pos_y) * step;
        (x, y)
    }

    /// Whether `screen_pos` can place this brick for a piece at
    /// `(orig_x, orig_y)` without overflow.
    pub fn screen_pos_defined(&self, orig_x: i32, orig_y: i32) -> (res: bool)
        ensures
            res == (fits_screen(orig_x as int, self.brick_pos_x as int) && fits_screen(
                orig_y as int,
                self.brick_pos_y as int,
            )),
    {
        fits_screen_check(orig_x, self.brick_pos_x) && fits_screen_check(orig_y, self.brick_pos_y)
    }
}

} // verus!
