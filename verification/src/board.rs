use vstd::prelude::*;

use crate::brick::Brick;
use crate::brick_group::BrickGroup;
use crate::geometry::{BOARD_BRICK_HEIGHT, BOARD_BRICK_WIDTH};

verus! {

/// The absolute row of each brick in `bricks`, for a piece at row `pos_y`.
pub open spec fn brick_row(pos_y: int, b: Brick) -> int {
    pos_y + b.brick_pos_y
}

/// Whether a piece of the given bricks, standing at row `pos_y`, touches the
/// bottom row of the board with one of them.
pub open spec fn touches_bottom(pos_y: int, bricks: Seq<Brick>) -> bool {
    exists|i: int| 0 <= i < bricks.len() && brick_row(pos_y, #[trigger] bricks[i]) == BOARD_BRICK_HEIGHT - 1
}

/// Whether the bottom-row test can be carried out for these bricks: for each
/// brick that is reached (every brick up to the first one found on the bottom
/// row), its row fits in `i32` and is not `-1`, whose conversion to an index
/// would overflow.
pub open spec fn bottom_test_defined(pos_y: int, bricks: Seq<Brick>) -> bool {
    forall|i: int|
        0 <= i < bricks.len() && (forall|j: int|
            0 <= j < i ==> brick_row(pos_y, #[trigger] bricks[j]) != BOARD_BRICK_HEIGHT - 1) ==> {
            &&& i32::MIN <= brick_row(pos_y, #[trigger] bricks[i]) <= i32::MAX
            &&& brick_row(pos_y, bricks[i]) != -1
        }
}

/// Whether the cell `(x, y)` lies on the board.
pub open spec fn on_board(x: int, y: int) -> bool {
    0 <= x < BOARD_BRICK_WIDTH && 0 <= y < BOARD_BRICK_HEIGHT
}

/// Whether every cell in `cells` lies on the board.
pub open spec fn all_on_board(cells: Seq<(int, int)>) -> bool {
    forall|i: int| 0 <= i < cells.len() ==> on_board((#[trigger] cells[i]).0, cells[i].1)
}

/// The board `cells` with every cell of `marks` filled.
pub open spec fn marked(cells: Seq<Seq<bool>>, marks: Seq<(int, int)>) -> Seq<Seq<bool>> {
    Seq::new(
        BOARD_BRICK_WIDTH as nat,
        |x: int| Seq::new(BOARD_BRICK_HEIGHT as nat, |y: int| cells[x][y] || marks.contains((x, y))),
    )
}

/// An empty board: no cell filled.
pub open spec fn empty_cells() -> Seq<Seq<bool>> {
    Seq::new(
        BOARD_BRICK_WIDTH as nat,
        |x: int| Seq::new(BOARD_BRICK_HEIGHT as nat, |y: int| false),
    )
}

/// Where the cell at column `x`, row `y` is kept in the board's storage.
pub open spec fn cell_index(x: int, y: int) -> int {
    x * BOARD_BRICK_HEIGHT + y
}

/// The board: which cells are filled, kept column after column, and the
/// pieces that have landed on it.
pub struct Board {
    board: Vec<bool>,
    brick_group_arr: Vec<BrickGroup>,
}

impl Board {
    /// The board has `BOARD_BRICK_WIDTH` columns of `BOARD_BRICK_HEIGHT` cells.
    #[verifier::type_invariant]
    spec fn inv(self) -> bool {
        self.board@.len() == BOARD_BRICK_WIDTH * BOARD_BRICK_HEIGHT
    }

    /// The filled cells, indexed by column and then by row.
    pub closed spec fn cells_spec(self) -> Seq<Seq<bool>> {
        Seq::new(
            BOARD_BRICK_WIDTH as nat,
            |x: int| Seq::new(BOARD_BRICK_HEIGHT as nat, |y: int| self.board@[cell_index(x, y)]),
        )
    }

    /// The pieces that have landed, in the order they landed.
    pub closed spec fn groups_spec(self) -> Seq<BrickGroup> {
        self.brick_group_arr@
    }

    /// An empty board with no landed pieces.
    pub fn new() -> (res: Self)
        ensures
            res.cells_spec() == empty_cells(),
            res.groups_spec() == Seq::<BrickGroup>::empty(),
    {
        let mut board: Vec<bool> = Vec::new();
        let mut i: usize = 0;
        while i < BOARD_BRICK_WIDTH * BOARD_BRICK_HEIGHT
            invariant
                i <= BOARD_BRICK_WIDTH * BOARD_BRICK_HEIGHT,
                board@ == Seq::new(i as nat, |k: int| false),
            decreases BOARD_BRICK_WIDTH * BOARD_BRICK_HEIGHT - i,
        {
            board.push(false);
            i = i + 1;
            assert(board@ =~= Seq::new(i as nat, |k: int| false));
        }
        let res = Board { board, brick_group_arr: Vec::new() };
        assert forall|x: int| 0 <= x < BOARD_BRICK_WIDTH implies
            (#[trigger] res.cells_spec()[x]) =~= empty_cells()[x] by {}
        assert(res.cells_spec() =~= empty_cells());
        res
    }

    /// Whether the cell at column `x`, row `y` is filled.
    pub fn is_filled(&self, x: usize, y: usize) -> (res: bool)
        requires
            on_board(x as int, y as int),
        ensures
            res == self.cells_spec()[x as int][y as int],
    {
        proof {
            use_type_invariant(self);
        }
        self.board[x * BOARD_BRICK_HEIGHT + y]
    }

    /// The pieces that have landed, in the order they landed.
    pub fn brick_groups(&self) -> (res: &Vec<BrickGroup>)
        ensures
            res@ == self.groups_spec(),
    {
        &self.brick_group_arr
    }

    /// Whether a brick of the piece's current rotation state lies on the
    /// bottom row of the board.
    pub fn collide_w_backgroud(&mut self, brick_group: &BrickGroup) -> (collide: bool)
        requires
            brick_group.num_states_spec() > 0,
            bottom_test_defined(brick_group.pos_y_spec(), brick_group.current_bricks_spec()),
        ensures
            collide == touches_bottom(brick_group.pos_y_spec(), brick_group.current_bricks_spec()),
            *final(self) == *old(self),
    {
        let mut collide = false;
        let bg_pos_y = brick_group.pos_y();
        let bricks = brick_group.current_bricks();
        let ghost pos_y = bg_pos_y as int;
        let ghost bs = bricks@;
        let mut i: usize = 0;
        while i < bricks.len()
            invariant_except_break
                i <= bs.len(),
                bricks@ == bs,
                bg_pos_y == pos_y,
                bottom_test_defined(pos_y, bs),
                !collide,
                forall|j: int| 0 <= j < i ==> brick_row(pos_y, #[trigger] bs[j]) != BOARD_BRICK_HEIGHT - 1,
            ensures
                collide == touches_bottom(pos_y, bs),
            decreases bs.len() - i,
        {
            let row: i32 = bg_pos_y + bricks[i].brick_pos_y;
            if row >= 0 && (row as usize) + 1 == BOARD_BRICK_HEIGHT {
                collide = true;
                assert(brick_row(pos_y, bs[i as int]) == BOARD_BRICK_HEIGHT - 1);
                break;
            }
            i = i + 1;
        }
        collide
    }

    /// Fills the cells of the piece's current rotation state and records the
    /// piece among the landed ones.
    pub fn board_update(&mut self, brick_group: &BrickGroup)
        requires
            brick_group.num_states_spec() > 0,
            brick_group.cells_fit(),
            all_on_board(brick_group.cells_spec()),
        ensures
            final(self).cells_spec() == marked(old(self).cells_spec(), brick_group.cells_spec()),
            final(self).groups_spec().len() == old(self).groups_spec().len() + 1,
            final(self).groups_spec().drop_last() == old(self).groups_spec(),
            final(self).groups_spec().last().same_as(*brick_group),
    {
        proof {
            use_type_invariant(&*self);
        }
        let cells = brick_group.cells();
        let ghost marks = brick_group.cells_spec();
        let ghost start = self.cells_spec();
        assert forall|a: int| 0 <= a < BOARD_BRICK_WIDTH implies
            (#[trigger] start[a]) =~= marked(start, marks.take(0))[a] by {}
        assert(start =~= marked(start, marks.take(0)));
        let mut i: usize = 0;
        while i < cells.len()
            invariant
                i <= cells@.len(),
                cells@.len() == marks.len(),
                forall|j: int|
                    0 <= j < cells@.len() ==> (#[trigger] cells@[j]).0 == marks[j].0 && cells@[j].1
                        == marks[j].1,
                all_on_board(marks),
                start.len() == BOARD_BRICK_WIDTH,
                forall|x: int| 0 <= x < BOARD_BRICK_WIDTH ==> (#[trigger] start[x]).len() == BOARD_BRICK_HEIGHT,
                self.cells_spec() == marked(start, marks.take(i as int)),
                self.groups_spec() == old(self).groups_spec(),
            decreases cells@.len() - i,
        {
            proof {
                use_type_invariant(&*self);
            }
            let (x, y) = cells[i];
            assert(on_board(marks[i as int].0, marks[i as int].1));
            let ghost before = self.cells_spec();
            let idx: usize = (x as usize) * BOARD_BRICK_HEIGHT + (y as usize);
            self.board[idx] = true;
            proof {
                let prev = marks.take(i as int);
                let next = marks.take(i + 1);
                assert(next =~= prev.push(marks[i as int]));
                assert forall|a: int, b: int| #![auto]
                    0 <= a < BOARD_BRICK_WIDTH && 0 <= b < BOARD_BRICK_HEIGHT implies
                    next.contains((a, b)) == (prev.contains((a, b)) || (a, b) == marks[i as int]) by {
                    if prev.contains((a, b)) {
                        let k = choose|k: int| 0 <= k < prev.len() && prev[k] == (a, b);
                        assert(next[k] == (a, b));
                    }
                    if (a, b) == marks[i as int] {
                        assert(next[i as int] == (a, b));
                    }
                    if next.contains((a, b)) {
                        let k = choose|k: int| 0 <= k < next.len() && next[k] == (a, b);
                        if k < i {
                            assert(prev[k] == (a, b));
                        }
                    }
                }
                assert forall|a: int| 0 <= a < BOARD_BRICK_WIDTH implies
                    (#[trigger] self.cells_spec()[a]) =~= marked(start, next)[a] by {
                    assert forall|b: int| 0 <= b < BOARD_BRICK_HEIGHT implies
                        (#[trigger] self.cells_spec()[a][b]) == (before[a][b] || (a, b) == marks[i as int]) by {
                        if a != x || b != y {
                            assert(cell_index(a, b) != idx);
                        }
                    }
                }
                assert(self.cells_spec() =~= marked(start, next));
            }
            i = i + 1;
        }
        assert(marks.take(cells@.len() as int) =~= marks);
        proof {
            use_type_invariant(&*self);
        }
        let mut groups: Vec<BrickGroup> = Vec::new();
        std::mem::swap(&mut groups, &mut self.brick_group_arr);
        groups.push(brick_group.clone());
        std::mem::swap(&mut groups, &mut self.brick_group_arr);
        assert(self.groups_spec().drop_last() =~= old(self).groups_spec());
    }

    /// Whether the piece touches the bottom row; if it does, the piece lands:
    /// its cells are filled and it is recorded among the landed pieces.
    pub fn update_down_collide(&mut self, brick_group: &BrickGroup) -> (collide: bool)
        requires
            brick_group.num_states_spec() > 0,
            bottom_test_defined(brick_group.pos_y_spec(), brick_group.current_bricks_spec()),
            touches_bottom(brick_group.pos_y_spec(), brick_group.current_bricks_spec())
                ==> brick_group.cells_fit() && all_on_board(brick_group.cells_spec()),
        ensures
            collide == touches_bottom(brick_group.pos_y_spec(), brick_group.current_bricks_spec()),
            collide ==> final(self).cells_spec() == marked(old(self).cells_spec(), brick_group.cells_spec()),
            collide ==> final(self).groups_spec().len() == old(self).groups_spec().len() + 1,
            collide ==> final(self).groups_spec().drop_last() == old(self).groups_spec(),
            collide ==> final(self).groups_spec().last().same_as(*brick_group),
            !collide ==> *final(self) == *old(self),
    {
        let collide = self.collide_w_backgroud(brick_group);
        if collide {
            self.board_update(brick_group);
        }
        collide
    }
}

/// When a piece lands, every cell filled before stays filled, every cell of
/// the piece becomes filled, and no other cell changes.
pub proof fn lemma_landing_fills(before: Seq<Seq<bool>>, piece_cells: Seq<(int, int)>)
    requires
        all_on_board(piece_cells),
    ensures
        forall|x: int, y: int|
            on_board(x, y) ==> (#[trigger] marked(before, piece_cells)[x][y]) == (before[x][y]
                || piece_cells.contains((x, y))),
        forall|x: int, y: int| on_board(x, y) && before[x][y] ==> #[trigger] marked(before, piece_cells)[x][y],
        forall|i: int|
            0 <= i < piece_cells.len() ==> #[trigger] marked(before, piece_cells)[piece_cells[i].0][piece_cells[i].1],
{
    assert forall|i: int| 0 <= i < piece_cells.len() implies #[trigger] marked(before, piece_cells)[piece_cells[i].0][piece_cells[i].1] by {
        assert(on_board(piece_cells[i].0, piece_cells[i].1));
        assert(piece_cells.contains((piece_cells[i].0, piece_cells[i].1))) by {
            assert(piece_cells[i] == (piece_cells[i].0, piece_cells[i].1));
        }
    }
}

} // verus!
