use vstd::prelude::*;

use crate::brick::Brick;
use crate::brick_group::{BrickColor, BrickGroup};
use crate::orientation::next_state;

verus! {

/// The seven kinds of piece.
///
/// ```text
/// A: ++      B: ++++    C:  +      D: +++     E: +++     F: ++      G:  ++
///     ++                   +++          +        +          ++        ++
/// ```
#[derive(Clone, Copy, Debug, PartialEq, Eq, Structural)]
pub enum ShapeKind {
    A,
    B,
    C,
    D,
    E,
    F,
    G,
}

/// The kind drawn for the number `n`, where `n` is taken modulo seven.
pub open spec fn kind_for_number(n: u8) -> ShapeKind {
    let r = n % 7;
    if r == 0 {
        ShapeKind::A
    } else if r == 1 {
        ShapeKind::B
    } else if r == 2 {
        ShapeKind::C
    } else if r == 3 {
        ShapeKind::D
    } else if r == 4 {
        ShapeKind::E
    } else if r == 5 {
        ShapeKind::F
    } else {
        ShapeKind::G
    }
}

/// A brick at offset `(x, y)`.
pub open spec fn br(x: i32, y: i32) -> Brick {
    Brick { brick_pos_x: x, brick_pos_y: y }
}

impl ShapeKind {
    /// How many rotation states a piece of this kind has.
    pub open spec fn num_states_spec(self) -> nat {
        match self {
            ShapeKind::B => 2,
            ShapeKind::F => 1,
            _ => 4,
        }
    }

    /// The colour a piece of this kind is drawn in.
    pub open spec fn color_spec(self) -> BrickColor {
        match self {
            ShapeKind::A => BrickColor::Black,
            ShapeKind::B => BrickColor::Red,
            ShapeKind::C => BrickColor::Green,
            ShapeKind::D => BrickColor::Blue,
            ShapeKind::E => BrickColor::Orange,
            ShapeKind::F => BrickColor::Magenta,
            ShapeKind::G => BrickColor::Yellow,
        }
    }

    /// The bricks of each rotation state of this kind, in the order they are
    /// added. Offsets are taken within a 3x3 (or 4x4) square.
    pub open spec fn layout(self) -> Seq<Seq<Brick>> {
        match self {
            ShapeKind::A => seq![
                seq![br(0, 1), br(1, 1), br(1, 2), br(2, 2)],
                seq![br(2, 0), br(1, 1), br(2, 1), br(1, 2)],
                seq![br(0, 1), br(1, 1), br(1, 2), br(2, 2)],
                seq![br(2, 0), br(1, 1), br(2, 1), br(1, 2)],
            ],
            ShapeKind::B => seq![
                seq![br(0, 1), br(1, 1), br(2, 1), br(3, 1)],
                seq![br(2, 0), br(2, 1), br(2, 2), br(2, 3)],
            ],
            ShapeKind::C => seq![
                seq![br(1, 2), br(0, 1), br(1, 1), br(2, 1)],
                seq![br(0, 1), br(1, 0), br(1, 1), br(1, 2)],
                seq![br(1, 0), br(0, 1), br(1, 1), br(2, 1)],
                seq![br(2, 1), br(1, 0), br(1, 1), br(1, 2)],
            ],
            ShapeKind::D => seq![
                seq![br(2, 2), br(0, 1), br(1, 1), br(2, 1)],
                seq![br(0, 2), br(1, 0), br(1, 1), br(1, 2)],
                seq![br(0, 1), br(1, 1), br(2, 1), br(0, 0)],
                seq![br(1, 0), br(1, 1), br(1, 2), br(2, 0)],
            ],
            ShapeKind::E => seq![
                seq![br(0, 2), br(0, 1), br(1, 1), br(2, 1)],
                seq![br(0, 0), br(1, 0), br(1, 1), br(1, 2)],
                seq![br(2, 0), br(0, 1), br(1, 1), br(2, 1)],
                seq![br(2, 2), br(1, 0), br(1, 1), br(1, 2)],
            ],
            ShapeKind::F => seq![seq![br(1, 1), br(2, 1), br(1, 2), br(2, 2)]],
            ShapeKind::G => seq![
                seq![br(0, 2), br(1, 2), br(1, 1), br(2, 1)],
                seq![br(1, 0), br(1, 1), br(2, 1), br(2, 2)],
                seq![br(0, 2), br(1, 2), br(1, 1), br(2, 1)],
                seq![br(1, 0), br(1, 1), br(2, 1), br(2, 2)],
            ],
        }
    }

    /// How many rotation states a piece of this kind has.
    pub fn num_states(&self) -> (res: usize)
        ensures
            res == self.num_states_spec(),
    {
        match self {
            ShapeKind::B => 2,
            ShapeKind::F => 1,
            _ => 4,
        }
    }

    /// The colour a piece of this kind is drawn in.
    pub fn color(&self) -> (res: BrickColor)
        ensures
            res == self.color_spec(),
    {
        match self {
            ShapeKind::A => BrickColor::Black,
            ShapeKind::B => BrickColor::Red,
            ShapeKind::C => BrickColor::Green,
            ShapeKind::D => BrickColor::Blue,
            ShapeKind::E => BrickColor::Orange,
            ShapeKind::F => BrickColor::Magenta,
            ShapeKind::G => BrickColor::Yellow,
        }
    }
}

/// Each rotation state's bricks extended by the ones `kind` lays out for it.
pub open spec fn with_layout(bricks: Seq<Seq<Brick>>, kind: ShapeKind) -> Seq<Seq<Brick>> {
    Seq::new(bricks.len(), |o: int| bricks[o] + kind.layout()[o])
}

/// What laying out `kind` on `group` leaves unchanged, and what it adds.
pub open spec fn laid_out(old_group: BrickGroup, new_group: BrickGroup, kind: ShapeKind) -> bool {
    &&& new_group.bricks_spec() == with_layout(old_group.bricks_spec(), kind)
    &&& new_group.pos_x_spec() == old_group.pos_x_spec()
    &&& new_group.pos_y_spec() == old_group.pos_y_spec()
    &&& new_group.orientation_spec() == old_group.orientation_spec()
    &&& new_group.color_spec() == old_group.color_spec()
}

/// Lays out the bricks of a piece of kind A in each of its rotation states.
pub fn init_type_a(bg: &mut BrickGroup)
    requires
        old(bg).num_states_spec() == 4,
    ensures
        laid_out(*old(bg), *final(bg), ShapeKind::A),
{
    let _num_states = bg.num_states();
    bg.add_brick(0, 1, 0);
    bg.add_brick(1, 1, 0);
    bg.add_brick(1, 2, 0);
    bg.add_brick(2, 2, 0);

    bg.add_brick(2, 0, 1);
    bg.add_brick(1, 1, 1);
    bg.add_brick(2, 1, 1);
    bg.add_brick(1, 2, 1);

    bg.add_brick(0, 1, 2);
    bg.add_brick(1, 1, 2);
    bg.add_brick(1, 2, 2);
    bg.add_brick(2, 2, 2);

    bg.add_brick(2, 0, 3);
    bg.add_brick(1, 1, 3);
    bg.add_brick(2, 1, 3);
    bg.add_brick(1, 2, 3);
    assert forall|o: int| 0 <= o < 4 implies (#[trigger] bg.bricks_spec()[o]) =~= old(bg).bricks_spec()[o]
        + ShapeKind::A.layout()[o] by {}
    assert(bg.bricks_spec() =~= with_layout(old(bg).bricks_spec(), ShapeKind::A));
}

/// Lays out the bricks of a piece of kind B in each of its rotation states.
pub fn init_type_b(bg: &mut BrickGroup)
    requires
        old(bg).num_states_spec() == 2,
    ensures
        laid_out(*old(bg), *final(bg), ShapeKind::B),
{
    let _num_states = bg.num_states();
    bg.add_brick(0, 1, 0);
    bg.add_brick(1, 1, 0);
    bg.add_brick(2, 1, 0);
    bg.add_brick(3, 1, 0);

    bg.add_brick(2, 0, 1);
    bg.add_brick(2, 1, 1);
    bg.add_brick(2, 2, 1);
    bg.add_brick(2, 3, 1);
    assert forall|o: int| 0 <= o < 2 implies (#[trigger] bg.bricks_spec()[o]) =~= old(bg).bricks_spec()[o]
        + ShapeKind::B.layout()[o] by {}
    assert(bg.bricks_spec() =~= with_layout(old(bg).bricks_spec(), ShapeKind::B));
}

/// Lays out the bricks of a piece of kind C in each of its rotation states.
pub fn init_type_c(bg: &mut BrickGroup)
    requires
        old(bg).num_states_spec() == 4,
    ensures
        laid_out(*old(bg), *final(bg), ShapeKind::C),
{
    let _num_states = bg.num_states();
    bg.add_brick(1, 2, 0);
    bg.add_brick(0, 1, 0);
    bg.add_brick(1, 1, 0);
    bg.add_brick(2, 1, 0);

    bg.add_brick(0, 1, 1);
    bg.add_brick(1, 0, 1);
    bg.add_brick(1, 1, 1);
    bg.add_brick(1, 2, 1);

    bg.add_brick(1, 0, 2);
    bg.add_brick(0, 1, 2);
    bg.add_brick(1, 1, 2);
    bg.add_brick(2, 1, 2);

    bg.add_brick(2, 1, 3);
    bg.add_brick(1, 0, 3);
    bg.add_brick(1, 1, 3);
    bg.add_brick(1, 2, 3);
    assert forall|o: int| 0 <= o < 4 implies (#[trigger] bg.bricks_spec()[o]) =~= old(bg).bricks_spec()[o]
        + ShapeKind::C.layout()[o] by {}
    assert(bg.bricks_spec() =~= with_layout(old(bg).bricks_spec(), ShapeKind::C));
}

/// Lays out the bricks of a piece of kind D in each of its rotation states.
pub fn init_type_d(bg: &mut BrickGroup)
    requires
        old(bg).num_states_spec() == 4,
    ensures
        laid_out(*old(bg), *final(bg), ShapeKind::D),
{
    let _num_states = bg.num_states();
    bg.add_brick(2, 2, 0);
    bg.add_brick(0, 1, 0);
    bg.add_brick(1, 1, 0);
    bg.add_brick(2, 1, 0);

    bg.add_brick(0, 2, 1);
    bg.add_brick(1, 0, 1);
    bg.add_brick(1, 1, 1);
    bg.add_brick(1, 2, 1);

    bg.add_brick(0, 1, 2);
    bg.add_brick(1, 1, 2);
    bg.add_brick(2, 1, 2);
    bg.add_brick(0, 0, 2);

    bg.add_brick(1, 0, 3);
    bg.add_brick(1, 1, 3);
    bg.add_brick(1, 2, 3);
    bg.add_brick(2, 0, 3);
    assert forall|o: int| 0 <= o < 4 implies (#[trigger] bg.bricks_spec()[o]) =~= old(bg).bricks_spec()[o]
        + ShapeKind::D.layout()[o] by {}
    assert(bg.bricks_spec() =~= with_layout(old(bg).bricks_spec(), ShapeKind::D));
}

/// Lays out the bricks of a piece of kind E in each of its rotation states.
pub fn init_type_e(bg: &mut BrickGroup)
    requires
        old(bg).num_states_spec() == 4,
    ensures
        laid_out(*old(bg), *final(bg), ShapeKind::E),
{
    let _num_states = bg.num_states();
    bg.add_brick(0, 2, 0);
    bg.add_brick(0, 1, 0);
    bg.add_brick(1, 1, 0);
    bg.add_brick(2, 1, 0);

    bg.add_brick(0, 0, 1);
    bg.add_brick(1, 0, 1);
    bg.add_brick(1, 1, 1);
    bg.add_brick(1, 2, 1);

    bg.add_brick(2, 0, 2);
    bg.add_brick(0, 1, 2);
    bg.add_brick(1, 1, 2);
    bg.add_brick(2, 1, 2);

    bg.add_brick(2, 2, 3);
    bg.add_brick(1, 0, 3);
    bg.add_brick(1, 1, 3);
    bg.add_brick(1, 2, 3);
    assert forall|o: int| 0 <= o < 4 implies (#[trigger] bg.bricks_spec()[o]) =~= old(bg).bricks_spec()[o]
        + ShapeKind::E.layout()[o] by {}
    assert(bg.bricks_spec() =~= with_layout(old(bg).bricks_spec(), ShapeKind::E));
}

/// Lays out the bricks of a piece of kind F in each of its rotation states.
pub fn init_type_f(bg: &mut BrickGroup)
    requires
        old(bg).num_states_spec() == 1,
    ensures
        laid_out(*old(bg), *final(bg), ShapeKind::F),
{
    let _num_states = bg.num_states();
    bg.add_brick(1, 1, 0);
    bg.add_brick(2, 1, 0);
    bg.add_brick(1, 2, 0);
    bg.add_brick(2, 2, 0);
    assert forall|o: int| 0 <= o < 1 implies (#[trigger] bg.bricks_spec()[o]) =~= old(bg).bricks_spec()[o]
        + ShapeKind::F.layout()[o] by {}
    assert(bg.bricks_spec() =~= with_layout(old(bg).bricks_spec(), ShapeKind::F));
}

/// Lays out the bricks of a piece of kind G in each of its rotation states.
pub fn init_type_g(bg: &mut BrickGroup)
    requires
        old(bg).num_states_spec() == 4,
    ensures
        laid_out(*old(bg), *final(bg), ShapeKind::G),
{
    let _num_states = bg.num_states();
    bg.add_brick(0, 2, 0);
    bg.add_brick(1, 2, 0);
    bg.add_brick(1, 1, 0);
    bg.add_brick(2, 1, 0);

    bg.add_brick(1, 0, 1);
    bg.add_brick(1, 1, 1);
    bg.add_brick(2, 1, 1);
    bg.add_brick(2, 2, 1);

    bg.add_brick(0, 2, 2);
    bg.add_brick(1, 2, 2);
    bg.add_brick(1, 1, 2);
    bg.add_brick(2, 1, 2);

    bg.add_brick(1, 0, 3);
    bg.add_brick(1, 1, 3);
    bg.add_brick(2, 1, 3);
    bg.add_brick(2, 2, 3);
    assert forall|o: int| 0 <= o < 4 implies (#[trigger] bg.bricks_spec()[o]) =~= old(bg).bricks_spec()[o]
        + ShapeKind::G.layout()[o] by {}
    assert(bg.bricks_spec() =~= with_layout(old(bg).bricks_spec(), ShapeKind::G));
}

/// A piece of one of the seven kinds.
pub struct Shape {
    kind: ShapeKind,
    brick_group: BrickGroup,
}

impl Shape {
    /// The piece has as many rotation states as its kind.
    #[verifier::type_invariant]
    spec fn inv(self) -> bool {
        self.brick_group.num_states_spec() == self.kind.num_states_spec()
    }

    /// The kind of the piece.
    pub closed spec fn kind_spec(self) -> ShapeKind {
        self.kind
    }

    /// The piece's bricks, position, rotation and colour.
    pub closed spec fn group(self) -> BrickGroup {
        self.brick_group
    }

    /// The position of every piece is a pair of `i32`s.
    pub proof fn lemma_pos_in_i32(self)
        ensures
            i32::MIN <= self.group().pos_x_spec() <= i32::MAX,
            i32::MIN <= self.group().pos_y_spec() <= i32::MAX,
    {
        self.group().lemma_pos_in_i32();
    }

    /// Whether this is a piece of `kind` at `(pos_x, pos_y)`, in its first
    /// rotation state, with no bricks laid out yet.
    pub open spec fn is_fresh(self, kind: ShapeKind, pos_x: int, pos_y: int) -> bool {
        &&& self.kind_spec() == kind
        &&& self.group().pos_x_spec() == pos_x
        &&& self.group().pos_y_spec() == pos_y
        &&& self.group().num_states_spec() == kind.num_states_spec()
        &&& self.group().cur_state_spec() == 0
        &&& self.group().bricks_spec() == Seq::new(
            kind.num_states_spec(),
            |i: int| Seq::<Brick>::empty(),
        )
        &&& self.group().color_spec() == kind.color_spec()
    }

    /// A piece of `kind` at `(pos_x, pos_y)`, in its first rotation state and
    /// in the kind's colour, with no bricks laid out yet.
    pub fn new(kind: ShapeKind, pos_x: i32, pos_y: i32) -> (res: Self)
        ensures
            res.is_fresh(kind, pos_x as int, pos_y as int),
    {
        let brick_group = BrickGroup::new(pos_x, pos_y, kind.num_states(), kind.color());
        Shape { kind, brick_group }
    }

    /// Lays out the bricks of the piece's kind in each rotation state, after
    /// any bricks it already has.
    pub fn init(&mut self)
        ensures
            final(self).kind_spec() == old(self).kind_spec(),
            laid_out(old(self).group(), final(self).group(), old(self).kind_spec()),
    {
        proof {
            use_type_invariant(&*self);
        }
        let mut group = BrickGroup::new(0, 0, self.kind.num_states(), self.kind.color());
        std::mem::swap(&mut group, &mut self.brick_group);
        match self.kind {
            ShapeKind::A => init_type_a(&mut group),
            ShapeKind::B => init_type_b(&mut group),
            ShapeKind::C => init_type_c(&mut group),
            ShapeKind::D => init_type_d(&mut group),
            ShapeKind::E => init_type_e(&mut group),
            ShapeKind::F => init_type_f(&mut group),
            ShapeKind::G => init_type_g(&mut group),
        }
        std::mem::swap(&mut group, &mut self.brick_group);
    }

    /// The kind of the piece.
    pub fn kind(&self) -> (res: ShapeKind)
        ensures
            res == self.kind_spec(),
    {
        self.kind
    }

    /// The piece's bricks, position, rotation and colour.
    pub fn get_brick_group(&self) -> (res: &BrickGroup)
        ensures
            *res == self.group(),
            res.num_states_spec() == self.kind_spec().num_states_spec(),
    {
        proof {
            use_type_invariant(self);
        }
        &self.brick_group
    }

    /// Moves the piece one column to the right.
    pub fn move_right_one(&mut self)
        requires
            old(self).group().pos_x_spec() < i32::MAX,
        ensures
            final(self).kind_spec() == old(self).kind_spec(),
            final(self).group().pos_x_spec() == old(self).group().pos_x_spec() + 1,
            final(self).group().pos_y_spec() == old(self).group().pos_y_spec(),
            final(self).group().orientation_spec() == old(self).group().orientation_spec(),
            final(self).group().bricks_spec() == old(self).group().bricks_spec(),
            final(self).group().color_spec() == old(self).group().color_spec(),
    {
        proof {
            use_type_invariant(&*self);
        }
        self.brick_group.move_right_one();
    }

    /// Moves the piece one column to the left.
    pub fn move_left_one(&mut self)
        requires
            old(self).group().pos_x_spec() > i32::MIN,
        ensures
            final(self).kind_spec() == old(self).kind_spec(),
            final(self).group().pos_x_spec() == old(self).group().pos_x_spec() - 1,
            final(self).group().pos_y_spec() == old(self).group().pos_y_spec(),
            final(self).group().orientation_spec() == old(self).group().orientation_spec(),
            final(self).group().bricks_spec() == old(self).group().bricks_spec(),
            final(self).group().color_spec() == old(self).group().color_spec(),
    {
        proof {
            use_type_invariant(&*self);
        }
        self.brick_group.move_left_one();
    }

    /// Moves the piece one row down.
    pub fn move_down_one(&mut self)
        requires
            old(self).group().pos_y_spec() < i32::MAX,
        ensures
            final(self).kind_spec() == old(self).kind_spec(),
            final(self).group().pos_x_spec() == old(self).group().pos_x_spec(),
            final(self).group().pos_y_spec() == old(self).group().pos_y_spec() + 1,
            final(self).group().orientation_spec() == old(self).group().orientation_spec(),
            final(self).group().bricks_spec() == old(self).group().bricks_spec(),
            final(self).group().color_spec() == old(self).group().color_spec(),
    {
        proof {
            use_type_invariant(&*self);
        }
        self.brick_group.move_down_one();
    }

    /// Turns the piece to its next rotation state.
    pub fn rotate(&mut self)
        ensures
            final(self).kind_spec() == old(self).kind_spec(),
            final(self).group().num_states_spec() == old(self).group().num_states_spec(),
            final(self).group().cur_state_spec() == next_state(
                old(self).group().cur_state_spec() as nat,
                old(self).group().num_states_spec(),
            ),
            final(self).group().pos_x_spec() == old(self).group().pos_x_spec(),
            final(self).group().pos_y_spec() == old(self).group().pos_y_spec(),
            final(self).group().bricks_spec() == old(self).group().bricks_spec(),
            final(self).group().color_spec() == old(self).group().color_spec(),
    {
        proof {
            use_type_invariant(&*self);
        }
        self.brick_group.rotate();
    }
}

/// A fresh piece of the kind numbered `n % 7` (A, B, ..., G), at
/// `(x_pos, y_pos)`.
pub fn shape_from_number(n: u8, x_pos: i32, y_pos: i32) -> (res: Shape)
    ensures
        res.is_fresh(kind_for_number(n), x_pos as int, y_pos as int),
{
    let r: u8 = n % 7;
    let kind = if r == 0 {
        ShapeKind::A
    } else if r == 1 {
        ShapeKind::B
    } else if r == 2 {
        ShapeKind::C
    } else if r == 3 {
        ShapeKind::D
    } else if r == 4 {
        ShapeKind::E
    } else if r == 5 {
        ShapeKind::F
    } else {
        ShapeKind::G
    };
    Shape::new(kind, x_pos, y_pos)
}

/// The pseudo-random generator that pieces are drawn from.
#[verifier::external_type_specification]
#[verifier::external_body]
pub struct ExStdRng(rand::rngs::StdRng);

/// A generator seeded once from the operating system's entropy source,
/// through `rand::SeedableRng::from_rng` on `rand::rngs::OsRng`; `None` when
/// the source reports an error. Nothing is stated of the seed.
#[verifier::external_body]
fn seeded_generator() -> (res: Option<rand::rngs::StdRng>) {
    match rand::SeedableRng::from_rng(rand::rngs::OsRng) {
        Ok(rng) => Some(rng),
        Err(_) => None,
    }
}

/// A byte drawn from `rng`, through `rand::Rng::gen::<u8>`. The generator
/// never reads the operating system again, so the draw cannot fail. Any byte
/// may come back, and two draws may differ; nothing is stated of it.
#[verifier::external_body]
fn gen_u8(rng: &mut rand::rngs::StdRng) -> (res: u8) {
    rand::Rng::gen::<u8>(rng)
}

/// Where random pieces come from: a generator seeded once, then drawn from
/// for every piece.
pub struct ShapeSource {
    rng: rand::rngs::StdRng,
}

impl ShapeSource {
    /// A source seeded from the operating system; `None` when the system's
    /// entropy source cannot be read.
    pub fn new() -> (res: Option<Self>) {
        match seeded_generator() {
            Some(rng) => Some(ShapeSource { rng }),
            None => None,
        }
    }
}

/// A fresh piece of a randomly drawn kind at `(x_pos, y_pos)`: the kind is
/// the one `shape_from_number` gives for a byte drawn from `source`.
pub fn get_rand_shape(source: &mut ShapeSource, x_pos: i32, y_pos: i32) -> (res: Shape)
    ensures
        exists|n: u8| res.is_fresh(#[trigger] kind_for_number(n), x_pos as int, y_pos as int),
{
    let n: u8 = gen_u8(&mut source.rng);
    let res = shape_from_number(n, x_pos, y_pos);
    assert(res.is_fresh(kind_for_number(n), x_pos as int, y_pos as int));
    res
}

/// Every kind has as many brick lists as rotation states, four bricks in each,
/// all within the 4x4 square whose corner is the piece's position.
pub proof fn lemma_layout_shape(kind: ShapeKind)
    ensures
        kind.layout().len() == kind.num_states_spec(),
        forall|o: int| 0 <= o < kind.num_states_spec() ==> (#[trigger] kind.layout()[o]).len() == 4,
        forall|o: int, i: int|
            0 <= o < kind.num_states_spec() && 0 <= i < 4 ==> 0 <= (#[trigger] kind.layout()[o][i]).brick_pos_x
                <= 3 && 0 <= kind.layout()[o][i].brick_pos_y <= 3,
{
}

/// Laying out a piece that has no bricks yet gives it exactly its kind's
/// layout.
pub proof fn lemma_init_fresh_gives_layout(fresh: BrickGroup, done: BrickGroup, kind: ShapeKind)
    requires
        fresh.bricks_spec() == Seq::new(kind.num_states_spec(), |i: int| Seq::<Brick>::empty()),
        laid_out(fresh, done, kind),
    ensures
        done.bricks_spec() == kind.layout(),
{
    lemma_layout_shape(kind);
    assert forall|o: int| 0 <= o < kind.num_states_spec() implies (#[trigger] done.bricks_spec()[o])
        =~= kind.layout()[o] by {
        assert(fresh.bricks_spec()[o] + kind.layout()[o] =~= kind.layout()[o]);
    }
    assert(done.bricks_spec() =~= kind.layout());
}

/// Each of the seven kinds is drawn for some byte.
pub proof fn lemma_every_kind_drawable(kind: ShapeKind)
    ensures
        exists|n: u8| #[trigger] kind_for_number(n) == kind,
{
    match kind {
        ShapeKind::A => assert(kind_for_number(0) == kind),
        ShapeKind::B => assert(kind_for_number(1) == kind),
        ShapeKind::C => assert(kind_for_number(2) == kind),
        ShapeKind::D => assert(kind_for_number(3) == kind),
        ShapeKind::E => assert(kind_for_number(4) == kind),
        ShapeKind::F => assert(kind_for_number(5) == kind),
        ShapeKind::G => assert(kind_for_number(6) == kind),
    }
}

/// Two bytes give the same kind exactly when they leave the same remainder
/// modulo seven: the seven remainders give the seven different kinds.
pub proof fn lemma_kind_determined_by_residue(n: u8, m: u8)
    ensures
        (kind_for_number(n) == kind_for_number(m)) == (n % 7 == m % 7),
{
}

} // verus!
