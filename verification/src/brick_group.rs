use vstd::prelude::*;

use crate::brick::Brick;
use crate::orientation::{next_state, Orientation};
use crate::text::{int_decimal, push_char, push_decimal};

verus! {

/// The colour a piece is drawn in.
#[derive(Clone, Copy, Debug, PartialEq, Eq, Structural)]
pub enum BrickColor {
    Black,
    Red,
    Green,
    Blue,
    Orange,
    Magenta,
    Yellow,
}

/// The absolute cell of each brick in `bricks`, for a piece standing at
/// `(pos_x, pos_y)`.
pub open spec fn placed_cells(pos_x: int, pos_y: int, bricks: Seq<Brick>) -> Seq<(int, int)> {
    bricks.map_values(|b: Brick| (pos_x + b.brick_pos_x, pos_y + b.brick_pos_y))
}

/// Whether every absolute cell of `bricks`, for a piece at `(pos_x, pos_y)`,
/// has both coordinates within `i32`.
pub open spec fn cells_fit_i32(pos_x: int, pos_y: int, bricks: Seq<Brick>) -> bool {
    forall|i: int|
        0 <= i < bricks.len() ==> {
            &&& i32::MIN <= pos_x + #[trigger] bricks[i].brick_pos_x <= i32::MAX
            &&& i32::MIN <= pos_y + bricks[i].brick_pos_y <= i32::MAX
        }
}

/// The text of one cell in a piece's description: `(x,y) `.
pub open spec fn cell_text(cell: (int, int)) -> Seq<char> {
    seq!['('] + int_decimal(cell.0) + seq![','] + int_decimal(cell.1) + seq![')', ' ']
}

/// The text of a list of cells, one after the other.
pub open spec fn cells_text(cells: Seq<(int, int)>) -> Seq<char>
    decreases cells.len(),
{
    if cells.len() == 0 {
        Seq::empty()
    } else {
        cells_text(cells.drop_last()) + cell_text(cells.last())
    }
}

/// How a piece describes itself: `brick :`, each cell of its current
/// rotation state as `(x,y) `, and a line break.
pub open spec fn description(cells: Seq<(int, int)>) -> Seq<char> {
    seq!['b', 'r', 'i', 'c', 'k', ' ', ':'] + cells_text(cells) + seq!['\n']
}

/// A piece: its position on the board, its rotation state, the bricks it is
/// made of in each rotation state, and its colour.
pub struct BrickGroup {
    bg_pos_x: i32,
    bg_pos_y: i32,
    orientation: Orientation,
    bg_bricks: Vec<Vec<Brick>>,
    color: BrickColor,
}

impl BrickGroup {
    /// There is one list of bricks for each rotation state.
    #[verifier::type_invariant]
    spec fn inv(self) -> bool {
        self.bg_bricks@.len() == self.orientation.num_states_spec()
    }

    /// The column the piece stands at.
    pub closed spec fn pos_x_spec(self) -> int {
        self.bg_pos_x as int
    }

    /// The row the piece stands at (rows count downwards).
    pub closed spec fn pos_y_spec(self) -> int {
        self.bg_pos_y as int
    }

    /// The rotation state.
    pub closed spec fn orientation_spec(self) -> Orientation {
        self.orientation
    }

    /// The bricks of each rotation state, relative to the piece's position.
    pub closed spec fn bricks_spec(self) -> Seq<Seq<Brick>> {
        self.bg_bricks@.map_values(|v: Vec<Brick>| v@)
    }

    /// The colour.
    pub closed spec fn color_spec(self) -> BrickColor {
        self.color
    }

    /// The position of every piece is a pair of `i32`s.
    pub proof fn lemma_pos_in_i32(self)
        ensures
            i32::MIN <= self.pos_x_spec() <= i32::MAX,
            i32::MIN <= self.pos_y_spec() <= i32::MAX,
    {
    }

    /// The index of the current rotation state.
    pub open spec fn cur_state_spec(self) -> int {
        self.orientation_spec().cur_state_spec() as int
    }

    /// The number of rotation states.
    pub open spec fn num_states_spec(self) -> nat {
        self.orientation_spec().num_states_spec()
    }

    /// The bricks of the current rotation state.
    pub open spec fn current_bricks_spec(self) -> Seq<Brick> {
        self.bricks_spec()[self.cur_state_spec()]
    }

    /// The absolute cells of the bricks of the current rotation state.
    pub open spec fn cells_spec(self) -> Seq<(int, int)> {
        placed_cells(self.pos_x_spec(), self.pos_y_spec(), self.current_bricks_spec())
    }

    /// Whether the absolute cells of the current rotation state can be
    /// computed in `i32`.
    pub open spec fn cells_fit(self) -> bool {
        cells_fit_i32(self.pos_x_spec(), self.pos_y_spec(), self.current_bricks_spec())
    }

    /// Two pieces that agree in position, rotation, bricks and colour.
    pub open spec fn same_as(self, other: Self) -> bool {
        &&& self.pos_x_spec() == other.pos_x_spec()
        &&& self.pos_y_spec() == other.pos_y_spec()
        &&& self.orientation_spec() == other.orientation_spec()
        &&& self.bricks_spec() == other.bricks_spec()
        &&& self.color_spec() == other.color_spec()
    }

    /// How many rotation states the piece has; it has one brick list for
    /// each.
    pub fn num_states(&self) -> (res: usize)
        ensures
            res == self.num_states_spec(),
            res == self.bricks_spec().len(),
    {
        proof {
            use_type_invariant(self);
        }
        self.orientation.num_states()
    }

    /// A piece at `(pos_x, pos_y)` with `num_states` rotation states, each
    /// without bricks yet, in its first rotation state.
    pub fn new(pos_x: i32, pos_y: i32, num_states: usize, color: BrickColor) -> (res: Self)
        ensures
            res.pos_x_spec() == pos_x,
            res.pos_y_spec() == pos_y,
            res.num_states_spec() == num_states,
            res.cur_state_spec() == 0,
            res.bricks_spec() == Seq::new(num_states as nat, |i: int| Seq::<Brick>::empty()),
            res.color_spec() == color,
    {
        let mut bg_bricks: Vec<Vec<Brick>> = Vec::new();
        let mut i: usize = 0;
        while i < num_states
            invariant
                i <= num_states,
                bg_bricks@.len() == i,
                forall|j: int| 0 <= j < i ==> (#[trigger] bg_bricks@[j])@ == Seq::<Brick>::empty(),
            decreases num_states - i,
        {
            bg_bricks.push(Vec::new());
            i = i + 1;
        }
        let res = BrickGroup {
            bg_pos_x: pos_x,
            bg_pos_y: pos_y,
            orientation: Orientation::new(num_states),
            bg_bricks,
            color,
        };
        assert(res.bricks_spec() =~= Seq::new(num_states as nat, |i: int| Seq::<Brick>::empty()));
        res
    }

    /// Adds a brick at offset `(pos_x, pos_y)` to rotation state `orient`.
    pub fn add_brick(&mut self, pos_x: i32, pos_y: i32, orient: usize)
        requires
            orient < old(self).num_states_spec(),
        ensures
            final(self).bricks_spec() == old(self).bricks_spec().update(
                orient as int,
                old(self).bricks_spec()[orient as int].push(Brick { brick_pos_x: pos_x, brick_pos_y: pos_y }),
            ),
            final(self).pos_x_spec() == old(self).pos_x_spec(),
            final(self).pos_y_spec() == old(self).pos_y_spec(),
            final(self).orientation_spec() == old(self).orientation_spec(),
            final(self).color_spec() == old(self).color_spec(),
    {
        proof {
            use_type_invariant(&*self);
        }
        self.bg_bricks[orient].push(Brick::new(pos_x, pos_y));
        assert(self.bricks_spec() =~= old(self).bricks_spec().update(
            orient as int,
            old(self).bricks_spec()[orient as int].push(Brick { brick_pos_x: pos_x, brick_pos_y: pos_y }),
        ));
    }

    /// Moves the piece one column to the right.
    pub fn move_right_one(&mut self)
        requires
            old(self).pos_x_spec() < i32::MAX,
        ensures
            final(self).pos_x_spec() == old(self).pos_x_spec() + 1,
            final(self).pos_y_spec() == old(self).pos_y_spec(),
            final(self).orientation_spec() == old(self).orientation_spec(),
            final(self).bricks_spec() == old(self).bricks_spec(),
            final(self).color_spec() == old(self).color_spec(),
        no_unwind
    {
        proof {
            use_type_invariant(&*self);
        }
        self.bg_pos_x = self.bg_pos_x + 1;
    }

    /// Moves the piece one column to the left.
    pub fn move_left_one(&mut self)
        requires
            old(self).pos_x_spec() > i32::MIN,
        ensures
            final(self).pos_x_spec() == old(self).pos_x_spec() - 1,
            final(self).pos_y_spec() == old(self).pos_y_spec(),
            final(self).orientation_spec() == old(self).orientation_spec(),
            final(self).bricks_spec() == old(self).bricks_spec(),
            final(self).color_spec() == old(self).color_spec(),
        no_unwind
    {
        proof {
            use_type_invariant(&*self);
        }
        self.bg_pos_x = self.bg_pos_x - 1;
    }

    /// Moves the piece one row down.
    pub fn move_down_one(&mut self)
        requires
            old(self).pos_y_spec() < i32::MAX,
        ensures
            final(self).pos_x_spec() == old(self).pos_x_spec(),
            final(self).pos_y_spec() == old(self).pos_y_spec() + 1,
            final(self).orientation_spec() == old(self).orientation_spec(),
            final(self).bricks_spec() == old(self).bricks_spec(),
            final(self).color_spec() == old(self).color_spec(),
        no_unwind
    {
        proof {
            use_type_invariant(&*self);
        }
        self.bg_pos_y = self.bg_pos_y + 1;
    }

    /// Turns the piece to its next rotation state.
    pub fn rotate(&mut self)
        ensures
            final(self).num_states_spec() == old(self).num_states_spec(),
            final(self).cur_state_spec() == next_state(
                old(self).cur_state_spec() as nat,
                old(self).num_states_spec(),
            ),
            final(self).pos_x_spec() == old(self).pos_x_spec(),
            final(self).pos_y_spec() == old(self).pos_y_spec(),
            final(self).bricks_spec() == old(self).bricks_spec(),
            final(self).color_spec() == old(self).color_spec(),
        no_unwind
    {
        proof {
            use_type_invariant(&*self);
        }
        let mut orientation = self.orientation;
        orientation.rotate();
        self.orientation = orientation;
    }

    /// The column the piece stands at.
    pub fn pos_x(&self) -> (res: i32)
        ensures
            res == self.pos_x_spec(),
    {
        self.bg_pos_x
    }

    /// The row the piece stands at.
    pub fn pos_y(&self) -> (res: i32)
        ensures
            res == self.pos_y_spec(),
    {
        self.bg_pos_y
    }

    /// The colour of the piece.
    pub fn color(&self) -> (res: BrickColor)
        ensures
            res == self.color_spec(),
    {
        self.color
    }

    /// The rotation state of the piece.
    pub fn orientation(&self) -> (res: Orientation)
        ensures
            res == self.orientation_spec(),
    {
        self.orientation
    }

    /// The bricks of the current rotation state; a piece with no rotation
    /// states has none to give.
    pub fn current_bricks(&self) -> (res: &Vec<Brick>)
        requires
            self.num_states_spec() > 0,
        ensures
            res@ == self.current_bricks_spec(),
            0 <= self.cur_state_spec() < self.num_states_spec(),
    {
        proof {
            use_type_invariant(self);
        }
        let orient = self.orientation.cur_state();
        &self.bg_bricks[orient]
    }

    /// The absolute cells of the bricks of the current rotation state, in the
    /// order the bricks were added.
    pub fn cells(&self) -> (res: Vec<(i32, i32)>)
        requires
            self.num_states_spec() > 0,
            self.cells_fit(),
        ensures
            res@.len() == self.cells_spec().len(),
            forall|i: int|
                0 <= i < res@.len() ==> (#[trigger] res@[i]).0 == self.cells_spec()[i].0
                    && res@[i].1 == self.cells_spec()[i].1,
    {
        let bricks = self.current_bricks();
        let mut res: Vec<(i32, i32)> = Vec::new();
        let mut i: usize = 0;
        while i < bricks.len()
            invariant
                i <= bricks@.len(),
                bricks@ == self.current_bricks_spec(),
                self.cells_fit(),
                res@.len() == i,
                forall|j: int|
                    0 <= j < i ==> (#[trigger] res@[j]).0 == self.cells_spec()[j].0
                        && res@[j].1 == self.cells_spec()[j].1,
            decreases bricks@.len() - i,
        {
            let b = bricks[i];
            assert(i32::MIN <= self.pos_x_spec() + bricks@[i as int].brick_pos_x <= i32::MAX);
            res.push((self.bg_pos_x + b.brick_pos_x, self.bg_pos_y + b.brick_pos_y));
            i = i + 1;
        }
        res
    }

    /// The piece as text: `brick :`, then `(x,y) ` for each cell of the
    /// current rotation state, then a line break.
    pub fn describe(&self) -> (res: String)
        requires
            self.num_states_spec() > 0,
            self.cells_fit(),
        ensures
            res@ == description(self.cells_spec()),
    {
        let cells = self.cells();
        let mut res = String::new();
        push_char(&mut res, 'b');
        push_char(&mut res, 'r');
        push_char(&mut res, 'i');
        push_char(&mut res, 'c');
        push_char(&mut res, 'k');
        push_char(&mut res, ' ');
        push_char(&mut res, ':');
        let ghost prefix = res@;
        assert(prefix =~= seq!['b', 'r', 'i', 'c', 'k', ' ', ':']);
        let mut i: usize = 0;
        while i < cells.len()
            invariant
                i <= cells@.len(),
                cells@.len() == self.cells_spec().len(),
                forall|j: int|
                    0 <= j < cells@.len() ==> (#[trigger] cells@[j]).0 == self.cells_spec()[j].0
                        && cells@[j].1 == self.cells_spec()[j].1,
                res@ == prefix + cells_text(self.cells_spec().take(i as int)),
            decreases cells@.len() - i,
        {
            let (x, y) = cells[i];
            push_char(&mut res, '(');
            push_decimal(&mut res, x as i64);
            push_char(&mut res, ',');
            push_decimal(&mut res, y as i64);
            push_char(&mut res, ')');
            push_char(&mut res, ' ');
            proof {
                let t = self.cells_spec().take(i + 1);
                assert(t.drop_last() =~= self.cells_spec().take(i as int));
                assert(t.last() == self.cells_spec()[i as int]);
                assert(res@ =~= prefix + cells_text(t));
            }
            i = i + 1;
        }
        push_char(&mut res, '\n');
        assert(self.cells_spec().take(cells@.len() as int) =~= self.cells_spec());
        assert(res@ =~= description(self.cells_spec()));
        res
    }

    /// Whether the absolute cells of the current rotation state can be
    /// computed in `i32` (`cells_fit`); a piece with no rotation states has
    /// no current state, and gets `false`.
    pub fn cells_fit_check(&self) -> (res: bool)
        ensures
            res == (self.num_states_spec() > 0 && self.cells_fit()),
    {
        if self.num_states() == 0 {
            return false;
        }
        let bricks = self.current_bricks();
        let px: i64 = self.bg_pos_x as i64;
        let py: i64 = self.bg_pos_y as i64;
        let mut i: usize = 0;
        while i < bricks.len()
            invariant
                i <= bricks@.len(),
                bricks@ == self.current_bricks_spec(),
                px == self.pos_x_spec(),
                py == self.pos_y_spec(),
                i32::MIN <= px <= i32::MAX,
                i32::MIN <= py <= i32::MAX,
                forall|k: int|
                    0 <= k < i ==> {
                        &&& i32::MIN <= px + (#[trigger] bricks@[k]).brick_pos_x <= i32::MAX
                        &&& i32::MIN <= py + bricks@[k].brick_pos_y <= i32::MAX
                    },
            decreases bricks@.len() - i,
        {
            let x: i64 = px + bricks[i].brick_pos_x as i64;
            let y: i64 = py + bricks[i].brick_pos_y as i64;
            if x < i32::MIN as i64 || x > i32::MAX as i64 || y < i32::MIN as i64 || y > i32::MAX as i64 {
                return false;
            }
            i = i + 1;
        }
        true
    }
}

impl Clone for BrickGroup {
    /// A copy with the same position, rotation, bricks and colour.
    fn clone(&self) -> (res: Self)
        ensures
            res.same_as(*self),
    {
        proof {
            use_type_invariant(self);
        }
        let mut bricks: Vec<Vec<Brick>> = Vec::new();
        let mut i: usize = 0;
        while i < self.bg_bricks.len()
            invariant
                i <= self.bg_bricks@.len(),
                bricks@.len() == i,
                forall|j: int| 0 <= j < i ==> (#[trigger] bricks@[j])@ == self.bg_bricks@[j]@,
            decreases self.bg_bricks@.len() - i,
        {
            let row = &self.bg_bricks[i];
            let mut copy: Vec<Brick> = Vec::new();
            let mut k: usize = 0;
            while k < row.len()
                invariant
                    k <= row@.len(),
                    copy@ == row@.take(k as int),
                decreases row@.len() - k,
            {
                copy.push(row[k]);
                k = k + 1;
                assert(copy@ =~= row@.take(k as int));
            }
            assert(copy@ =~= row@);
            bricks.push(copy);
            i = i + 1;
        }
        let res = BrickGroup {
            bg_pos_x: self.bg_pos_x,
            bg_pos_y: self.bg_pos_y,
            orientation: self.orientation,
            bg_bricks: bricks,
            color: self.color,
        };
        assert(res.bricks_spec() =~= self.bricks_spec());
        res
    }
}

} // verus!
