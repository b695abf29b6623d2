use vstd::prelude::*;

use crate::board::{
    all_on_board, bottom_test_defined, brick_row, marked, on_board, touches_bottom, Board,
};
use crate::brick::Brick;
use crate::brick_group::{cells_fit_i32, placed_cells, BrickGroup};
use crate::geometry::BOARD_BRICK_HEIGHT;
use crate::orientation::next_state;
use crate::shapes::{get_rand_shape, kind_for_number, laid_out, Shape, ShapeKind, ShapeSource};

verus! {

/// Where a game, or the play of one piece, stands.
#[allow(non_camel_case_types)]
#[derive(Clone, Copy, Debug, PartialEq, Eq, Structural)]
pub enum GameStatus {
    ACTIVE,
    SHAPE_PLACED,
    PAUSED,
    QUIT,
}

/// A key the player pressed.
#[derive(Clone, Copy, Debug, PartialEq, Eq, Structural)]
pub enum KeyPress {
    Left,
    Up,
    Down,
    Right,
    Escape,
    P,
    Space,
    Other,
}

/// What the window reported.
#[derive(Clone, Copy, Debug, PartialEq, Eq, Structural)]
pub enum GameEvent {
    /// The window was closed.
    Close,
    /// A key was pressed.
    Press(KeyPress),
    /// Anything else, such as a request to redraw.
    Other,
}

/// The highest value of the event counter; the tick after it starts again at 0.
pub const CLOCK_LIMIT: u128 = 1_000_000;

/// The piece falls by one row on every tick whose counter is a multiple of this.
pub const TICKS_PER_DROP: u128 = 500;

/// The counter after one more event.
pub open spec fn next_clock(c: int) -> int {
    if c < CLOCK_LIMIT {
        c + 1
    } else {
        0
    }
}

/// Whether the tick that follows counter `c` makes the piece fall.
pub open spec fn clock_fires(c: int) -> bool {
    next_clock(c) % (TICKS_PER_DROP as int) == 0
}

/// Whether the piece `g`, were it standing at row `pos_y`, could be tested
/// for landing and then land or fall one row without fault: the test is
/// defined, a landing piece lies on the board, and a falling one has a row
/// below it.
pub open spec fn down_ok(g: BrickGroup, pos_y: int) -> bool {
    let bricks = g.current_bricks_spec();
    &&& g.num_states_spec() > 0
    &&& bottom_test_defined(pos_y, bricks)
    &&& touches_bottom(pos_y, bricks) ==> cells_fit_i32(g.pos_x_spec(), pos_y, bricks)
        && all_on_board(placed_cells(g.pos_x_spec(), pos_y, bricks))
    &&& !touches_bottom(pos_y, bricks) ==> pos_y < i32::MAX
}

/// Whether the event `ev` can be handled for the piece `g` standing at row
/// `pos_y`.
pub open spec fn event_ok(g: BrickGroup, pos_y: int, ev: GameEvent) -> bool {
    match ev {
        GameEvent::Press(KeyPress::Left) => g.pos_x_spec() > i32::MIN,
        GameEvent::Press(KeyPress::Right) => g.pos_x_spec() < i32::MAX,
        GameEvent::Press(KeyPress::Down) => down_ok(g, pos_y),
        _ => true,
    }
}

/// Whether `b` is the piece `a` moved by `dx` columns and `dy` rows.
pub open spec fn shifted(a: Shape, b: Shape, dx: int, dy: int) -> bool {
    &&& b.kind_spec() == a.kind_spec()
    &&& b.group().pos_x_spec() == a.group().pos_x_spec() + dx
    &&& b.group().pos_y_spec() == a.group().pos_y_spec() + dy
    &&& b.group().orientation_spec() == a.group().orientation_spec()
    &&& b.group().bricks_spec() == a.group().bricks_spec()
    &&& b.group().color_spec() == a.group().color_spec()
}

/// Whether `b` is the piece `a` turned to its next rotation state.
pub open spec fn turned(a: Shape, b: Shape) -> bool {
    &&& b.kind_spec() == a.kind_spec()
    &&& b.group().num_states_spec() == a.group().num_states_spec()
    &&& b.group().cur_state_spec() == next_state(
        a.group().cur_state_spec() as nat,
        a.group().num_states_spec(),
    )
    &&& b.group().pos_x_spec() == a.group().pos_x_spec()
    &&& b.group().pos_y_spec() == a.group().pos_y_spec()
    &&& b.group().bricks_spec() == a.group().bricks_spec()
    &&& b.group().color_spec() == a.group().color_spec()
}

/// Whether the board `b` is the board `a` after the piece `g` landed on it.
pub open spec fn landed(a: Board, b: Board, g: BrickGroup) -> bool {
    &&& b.cells_spec() == marked(a.cells_spec(), g.cells_spec())
    &&& b.groups_spec().len() == a.groups_spec().len() + 1
    &&& b.groups_spec().drop_last() == a.groups_spec()
    &&& b.groups_spec().last().same_as(g)
}

/// The state of one game: the board, the falling piece, and the event counter
/// that paces the fall.
pub struct Game {
    board: Board,
    gb: Shape,
    clock_counter: u128,
}

/// Whether board `b2` and piece `p2` are what one attempt to move piece `p1`
/// down on board `b1` leaves: `collide` tells whether the piece touched the
/// bottom row, in which case it landed and stays where it was; otherwise it
/// fell one row and the board is unchanged.
pub open spec fn drop_effect(b1: Board, p1: Shape, b2: Board, p2: Shape, collide: bool) -> bool {
    let g = p1.group();
    &&& collide == touches_bottom(g.pos_y_spec(), g.current_bricks_spec())
    &&& collide ==> landed(b1, b2, g) && p2 == p1
    &&& !collide ==> b2 == b1 && shifted(p1, p2, 0, 1)
}

/// Whether `b` is the game `a` after one attempt to move the piece down,
/// with `collide` telling whether it landed; the counter is unchanged.
pub open spec fn dropped(a: Game, b: Game, collide: bool) -> bool {
    &&& drop_effect(a.board_spec(), a.piece(), b.board_spec(), b.piece(), collide)
    &&& b.clock_spec() == a.clock_spec()
}

/// Whether `b` is the game `a` after one tick of the counter; `collide` tells
/// whether the tick made the piece land.
pub open spec fn ticked(a: Game, b: Game, collide: bool) -> bool {
    let fires = clock_fires(a.clock_spec());
    &&& b.clock_spec() == next_clock(a.clock_spec())
    &&& fires ==> drop_effect(a.board_spec(), a.piece(), b.board_spec(), b.piece(), collide)
    &&& !fires ==> !collide && b.board_spec() == a.board_spec() && b.piece() == a.piece()
}

/// Whether `b` is the game `a` after handling `ev`, with `res` as outcome.
pub open spec fn handled(a: Game, b: Game, ev: GameEvent, res: GameStatus) -> bool {
    &&& b.clock_spec() == a.clock_spec()
    &&& match ev {
        GameEvent::Close => res == GameStatus::QUIT && b == a,
        GameEvent::Press(KeyPress::Escape) => res == GameStatus::QUIT && b == a,
        GameEvent::Press(KeyPress::Left) => res == GameStatus::ACTIVE && b.board_spec()
            == a.board_spec() && shifted(a.piece(), b.piece(), -1, 0),
        GameEvent::Press(KeyPress::Right) => res == GameStatus::ACTIVE && b.board_spec()
            == a.board_spec() && shifted(a.piece(), b.piece(), 1, 0),
        GameEvent::Press(KeyPress::Up) => res == GameStatus::ACTIVE && b.board_spec()
            == a.board_spec() && turned(a.piece(), b.piece()),
        GameEvent::Press(KeyPress::Down) => exists|c: bool|
            #[trigger] dropped(a, b, c) && res == (if c {
                GameStatus::SHAPE_PLACED
            } else {
                GameStatus::ACTIVE
            }),
        _ => res == GameStatus::ACTIVE && b == a,
    }
}

/// Whether the piece `g`, were it standing at row `pos_y`, could be tested for
/// landing and then land or fall without fault (`down_ok`), together with
/// whether it would touch the bottom row.
pub fn down_check(g: &BrickGroup, pos_y: i64) -> (res: (bool, bool))
    requires
        i32::MIN <= pos_y <= i32::MAX + 1,
    ensures
        res.0 == down_ok(*g, pos_y as int),
        g.num_states_spec() > 0 ==> res.1 == touches_bottom(pos_y as int, g.current_bricks_spec()),
{
    if g.num_states() == 0 {
        return (false, false);
    }
    let bricks = g.current_bricks();
    let pos_x: i64 = g.pos_x() as i64;
    let ghost bs = bricks@;
    let ghost px = pos_x as int;
    let ghost py = pos_y as int;
    let bottom: i64 = (BOARD_BRICK_HEIGHT - 1) as i64;
    let mut defined = true;
    let mut hit = false;
    let mut all_on = true;
    let mut i: usize = 0;
    while i < bricks.len()
        invariant
            i <= bs.len(),
            bricks@ == bs,
            px == g.pos_x_spec(),
            pos_x == px,
            i32::MIN <= px <= i32::MAX,
            py == pos_y,
            bs == g.current_bricks_spec(),
            i32::MIN <= pos_y <= i32::MAX + 1,
            bottom == BOARD_BRICK_HEIGHT - 1,
            hit == (exists|j: int| 0 <= j < i && brick_row(py, #[trigger] bs[j]) == BOARD_BRICK_HEIGHT - 1),
            defined == (forall|k: int|
                0 <= k < i && (forall|j: int|
                    0 <= j < k ==> brick_row(py, #[trigger] bs[j]) != BOARD_BRICK_HEIGHT - 1) ==> {
                    &&& i32::MIN <= brick_row(py, #[trigger] bs[k]) <= i32::MAX
                    &&& brick_row(py, bs[k]) != -1
                }),
            all_on == (forall|k: int| 0 <= k < i ==> on_board(px + (#[trigger] bs[k]).brick_pos_x, py + bs[k].brick_pos_y)),
        decreases bs.len() - i,
    {
        let b: Brick = bricks[i];
        let row: i64 = pos_y + b.brick_pos_y as i64;
        let col: i64 = pos_x + b.brick_pos_x as i64;
        proof {
            if hit {
                let j = choose|j: int| 0 <= j < i && brick_row(py, #[trigger] bs[j]) == BOARD_BRICK_HEIGHT - 1;
                assert(!(forall|j: int| 0 <= j < i ==> brick_row(py, #[trigger] bs[j]) != BOARD_BRICK_HEIGHT - 1));
            }
        }
        if !hit && (row < i32::MIN as i64 || row > i32::MAX as i64 || row == -1) {
            defined = false;
        }
        if !(0 <= col && col < 15 && 0 <= row && row < 25) {
            all_on = false;
        }
        if row == bottom {
            hit = true;
        }
        i = i + 1;
    }
    let ok = defined && (!hit || all_on) && (hit || pos_y < i32::MAX as i64);
    proof {
        if hit && all_on {
            assert(cells_fit_i32(px, py, bs));
            assert forall|k: int| 0 <= k < bs.len() implies on_board(
                (#[trigger] placed_cells(px, py, bs)[k]).0,
                placed_cells(px, py, bs)[k].1,
            ) by {
                assert(on_board(px + bs[k].brick_pos_x, py + bs[k].brick_pos_y));
            }
        }
        if hit && !all_on {
            let k = choose|k: int| 0 <= k < bs.len() && !on_board(px + (#[trigger] bs[k]).brick_pos_x, py + bs[k].brick_pos_y);
            assert(!on_board(placed_cells(px, py, bs)[k].0, placed_cells(px, py, bs)[k].1));
        }
    }
    (ok, hit)
}

/// Whether the event `ev` could be handled for the piece `g` standing at row
/// `pos_y` (`event_ok`).
pub fn event_check(g: &BrickGroup, pos_y: i64, ev: GameEvent) -> (res: bool)
    requires
        i32::MIN <= pos_y <= i32::MAX + 1,
    ensures
        res == event_ok(*g, pos_y as int, ev),
{
    match ev {
        GameEvent::Press(KeyPress::Left) => g.pos_x() > i32::MIN,
        GameEvent::Press(KeyPress::Right) => g.pos_x() < i32::MAX,
        GameEvent::Press(KeyPress::Down) => down_check(g, pos_y).0,
        _ => true,
    }
}

impl Game {
    /// The board.
    pub closed spec fn board_spec(self) -> Board {
        self.board
    }

    /// The falling piece.
    pub closed spec fn piece(self) -> Shape {
        self.gb
    }

    /// The event counter.
    pub closed spec fn clock_spec(self) -> int {
        self.clock_counter as int
    }

    /// Whether the next tick, and then (unless the tick lands the piece) the
    /// event `ev`, can be handled without fault.
    pub open spec fn step_ok(self, ev: GameEvent) -> bool {
        let g = self.piece().group();
        let y = g.pos_y_spec();
        let fires = clock_fires(self.clock_spec());
        &&& fires ==> down_ok(g, y)
        &&& fires && !touches_bottom(y, g.current_bricks_spec()) ==> event_ok(g, y + 1, ev)
        &&& !fires ==> event_ok(g, y, ev)
    }

    /// A game on an empty board, with an unlaid piece of kind A at the top
    /// left and the counter at zero.
    pub fn new() -> (res: Self)
        ensures
            res.board_spec().cells_spec() == crate::board::empty_cells(),
            res.board_spec().groups_spec() == Seq::<BrickGroup>::empty(),
            res.piece().is_fresh(ShapeKind::A, 0, 0),
            res.clock_spec() == 0,
    {
        Game { board: Board::new(), gb: Shape::new(ShapeKind::A, 0, 0), clock_counter: 0 }
    }

    /// The board.
    pub fn board(&self) -> (res: &Board)
        ensures
            *res == self.board_spec(),
    {
        &self.board
    }

    /// The falling piece.
    pub fn piece_ref(&self) -> (res: &Shape)
        ensures
            *res == self.piece(),
    {
        &self.gb
    }

    /// The event counter.
    pub fn clock_counter(&self) -> (res: u128)
        ensures
            res == self.clock_spec(),
    {
        self.clock_counter
    }

    /// Replaces the falling piece by an unlaid piece of a kind drawn from
    /// `source`, at the top left.
    pub fn choose_random_shape(&mut self, source: &mut ShapeSource)
        ensures
            exists|n: u8| final(self).piece().is_fresh(#[trigger] kind_for_number(n), 0, 0),
            final(self).board_spec() == old(self).board_spec(),
            final(self).clock_spec() == old(self).clock_spec(),
    {
        self.gb = get_rand_shape(source, 0, 0);
    }

    /// Lays out the bricks of the falling piece.
    pub fn init_shape(&mut self)
        ensures
            final(self).piece().kind_spec() == old(self).piece().kind_spec(),
            laid_out(old(self).piece().group(), final(self).piece().group(), old(self).piece().kind_spec()),
            final(self).board_spec() == old(self).board_spec(),
            final(self).clock_spec() == old(self).clock_spec(),
    {
        self.gb.init();
    }

    /// Tests whether the piece touches the bottom row; if so it lands on the
    /// board, otherwise it falls one row. Returns whether it landed.
    pub fn game_move_down_one(&mut self) -> (collide: bool)
        requires
            down_ok(old(self).piece().group(), old(self).piece().group().pos_y_spec()),
        ensures
            dropped(*old(self), *final(self), collide),
    {
        let collide = self.board.update_down_collide(self.gb.get_brick_group());
        if !collide {
            self.gb.move_down_one();
        }
        collide
    }

    /// Advances the counter by one event (back to zero after `CLOCK_LIMIT`);
    /// on every multiple of `TICKS_PER_DROP` the piece moves down. Returns
    /// whether it landed.
    pub fn clock_delay(&mut self) -> (collide: bool)
        requires
            clock_fires(old(self).clock_spec()) ==> down_ok(
                old(self).piece().group(),
                old(self).piece().group().pos_y_spec(),
            ),
        ensures
            ticked(*old(self), *final(self), collide),
    {
        let mut collide = false;
        if self.clock_counter < CLOCK_LIMIT {
            self.clock_counter = self.clock_counter + 1;
        } else {
            self.clock_counter = 0;
        }
        if self.clock_counter % TICKS_PER_DROP == 0 {
            let ghost before = *self;
            collide = self.game_move_down_one();
            assert(dropped(before, *self, collide));
        }
        collide
    }

    /// Acts on one event from the window: closing or Escape quits, the arrow
    /// keys move the piece left, right or down or turn it; Down reports a
    /// landing. Anything else changes nothing.
    pub fn handle_event(&mut self, event: GameEvent) -> (res: GameStatus)
        requires
            event_ok(old(self).piece().group(), old(self).piece().group().pos_y_spec(), event),
        ensures
            handled(*old(self), *final(self), event, res),
            (res == GameStatus::QUIT) == (event == GameEvent::Close || event == GameEvent::Press(
                KeyPress::Escape,
            )),
            ignored_event(event) ==> res == GameStatus::ACTIVE && *final(self) == *old(self),
    {
        match event {
            GameEvent::Close => GameStatus::QUIT,
            GameEvent::Press(key) => match key {
                KeyPress::Left => {
                    self.gb.move_left_one();
                    GameStatus::ACTIVE
                },
                KeyPress::Up => {
                    self.gb.rotate();
                    GameStatus::ACTIVE
                },
                KeyPress::Down => {
                    let c = self.game_move_down_one();
                    if c {
                        GameStatus::SHAPE_PLACED
                    } else {
                        GameStatus::ACTIVE
                    }
                },
                KeyPress::Right => {
                    self.gb.move_right_one();
                    GameStatus::ACTIVE
                },
                KeyPress::Escape => GameStatus::QUIT,
                _ => GameStatus::ACTIVE,
            },
            GameEvent::Other => GameStatus::ACTIVE,
        }
    }

    /// One turn of the play of a piece: the counter ticks, which may land the
    /// piece (`SHAPE_PLACED`); otherwise the event is handled. `ACTIVE` means
    /// the play goes on and the window is redrawn.
    pub fn shape_step(&mut self, event: GameEvent) -> (res: GameStatus)
        requires
            old(self).step_ok(event),
        ensures
            exists|m: Game, c: bool|
                #[trigger] ticked(*old(self), m, c) && (if c {
                    res == GameStatus::SHAPE_PLACED && *final(self) == m
                } else {
                    handled(m, *final(self), event, res)
                }),
    {
        let ghost start = *self;
        if self.clock_delay() {
            assert(ticked(start, *self, true));
            return GameStatus::SHAPE_PLACED;
        }
        let ghost mid = *self;
        assert(ticked(start, mid, false));
        let res = self.handle_event(event);
        assert(handled(mid, *self, event, res));
        res
    }

    /// Whether `shape_step` can handle `event` in this state (`step_ok`).
    pub fn step_is_defined(&self, event: GameEvent) -> (res: bool)
        ensures
            res == self.step_ok(event),
    {
        let g = self.gb.get_brick_group();
        let y: i64 = g.pos_y() as i64;
        let next: u128 = if self.clock_counter < CLOCK_LIMIT {
            self.clock_counter + 1
        } else {
            0
        };
        let fires = next % TICKS_PER_DROP == 0;
        if fires {
            let (ok, touches) = down_check(g, y);
            if !ok {
                return false;
            }
            if touches {
                true
            } else {
                event_check(g, y + 1, event)
            }
        } else {
            event_check(g, y, event)
        }
    }
}

/// Whether another game starts after one ended with `status`: every outcome
/// but quitting starts a new one.
pub fn full_game_continues(status: GameStatus) -> (res: bool)
    ensures
        res == (status != GameStatus::QUIT),
{
    match status {
        GameStatus::QUIT => false,
        _ => true,
    }
}

/// Whether the play of the current piece goes on after a turn ended with
/// `status`: only while the game is active.
pub fn piece_play_continues(status: GameStatus) -> (res: bool)
    ensures
        res == (status == GameStatus::ACTIVE),
{
    match status {
        GameStatus::ACTIVE => true,
        _ => false,
    }
}

/// Whether every brick of the piece's current rotation state lies on a row of
/// the board.
pub open spec fn rows_on_board(g: BrickGroup) -> bool {
    forall|i: int|
        0 <= i < g.current_bricks_spec().len() ==> 0 <= brick_row(
            g.pos_y_spec(),
            #[trigger] g.current_bricks_spec()[i],
        ) < BOARD_BRICK_HEIGHT
}

/// A piece whose bricks all lie on rows of the board still does after an
/// attempt to move it down: it either lands where it is, or falls one row,
/// which only happens while no brick is on the bottom row.
pub proof fn lemma_fall_stays_on_board(a: Game, b: Game, collide: bool)
    requires
        dropped(a, b, collide),
        rows_on_board(a.piece().group()),
    ensures
        rows_on_board(b.piece().group()),
{
    let g = a.piece().group();
    let h = b.piece().group();
    if !collide {
        assert forall|i: int| 0 <= i < h.current_bricks_spec().len() implies 0 <= brick_row(
            h.pos_y_spec(),
            #[trigger] h.current_bricks_spec()[i],
        ) < BOARD_BRICK_HEIGHT by {
            assert(h.current_bricks_spec()[i] == g.current_bricks_spec()[i]);
            assert(brick_row(g.pos_y_spec(), g.current_bricks_spec()[i]) != BOARD_BRICK_HEIGHT - 1);
        }
    }
}

/// The counter never leaves `0..=CLOCK_LIMIT` once it is in that range.
pub proof fn lemma_clock_stays_bounded(a: Game, b: Game, collide: bool)
    requires
        ticked(a, b, collide),
        0 <= a.clock_spec() <= CLOCK_LIMIT,
    ensures
        0 <= b.clock_spec() <= CLOCK_LIMIT,
{
}

/// At the wrap-around the piece is moved on two events in a row: the one that
/// brings the counter to `CLOCK_LIMIT` and the one that brings it back to 0.
pub proof fn lemma_two_falls_at_wrap()
    ensures
        clock_fires(CLOCK_LIMIT - 1),
        clock_fires(CLOCK_LIMIT as int),
{
}

/// Whether the game takes no action on `ev`: any event that is neither a
/// window close nor a press of an arrow key or Escape.
pub open spec fn ignored_event(ev: GameEvent) -> bool {
    match ev {
        GameEvent::Close => false,
        GameEvent::Press(k) => k != KeyPress::Left && k != KeyPress::Right && k != KeyPress::Up
            && k != KeyPress::Down && k != KeyPress::Escape,
        GameEvent::Other => true,
    }
}

/// Only closing the window and pressing Escape end the play; every other
/// event leaves it going on (or, for Down, reports a landing).
pub proof fn lemma_only_close_and_escape_quit(a: Game, b: Game, ev: GameEvent, res: GameStatus)
    requires
        handled(a, b, ev, res),
    ensures
        (res == GameStatus::QUIT) == (ev == GameEvent::Close || ev == GameEvent::Press(KeyPress::Escape)),
{
}

/// An event the game takes no action on keeps the play going and changes
/// nothing: not the board, not the piece, not the counter.
pub proof fn lemma_ignored_events_change_nothing(a: Game, b: Game, ev: GameEvent, res: GameStatus)
    requires
        handled(a, b, ev, res),
        ignored_event(ev),
    ensures
        res == GameStatus::ACTIVE,
        b == a,
{
}

/// Quitting changes nothing: the state after Close or Escape is the state
/// before.
pub proof fn lemma_quit_changes_nothing(a: Game, b: Game, ev: GameEvent, res: GameStatus)
    requires
        handled(a, b, ev, res),
        res == GameStatus::QUIT,
    ensures
        b == a,
{
}

/// The counter after `n` events, starting from `c`.
pub open spec fn clock_after(c: int, n: nat) -> int
    decreases n,
{
    if n == 0 {
        c
    } else {
        next_clock(clock_after(c, (n - 1) as nat))
    }
}

/// From zero, the counter after `n` events is `n` modulo `CLOCK_LIMIT + 1`:
/// it counts up to `CLOCK_LIMIT` and starts again at zero.
pub proof fn lemma_clock_cycles(n: nat)
    ensures
        clock_after(0, n) == (n as int) % (CLOCK_LIMIT as int + 1),
    decreases n,
{
    let p = CLOCK_LIMIT as int + 1;
    if n == 0 {
        vstd::arithmetic::div_mod::lemma_small_mod(0nat, p as nat);
    } else {
        lemma_clock_cycles((n - 1) as nat);
        let prev = ((n - 1) as int) % p;
        vstd::arithmetic::div_mod::lemma_mod_bound((n - 1) as int, p);
        vstd::arithmetic::div_mod::lemma_add_mod_noop((n - 1) as int, 1, p);
        vstd::arithmetic::div_mod::lemma_small_mod(1nat, p as nat);
        if prev < CLOCK_LIMIT {
            vstd::arithmetic::div_mod::lemma_small_mod((prev + 1) as nat, p as nat);
        } else {
            vstd::arithmetic::div_mod::lemma_mod_self_0(p);
        }
    }
}

/// From zero, the `n`-th event makes the piece fall exactly when its counter
/// value, `n` modulo `CLOCK_LIMIT + 1`, is a multiple of `TICKS_PER_DROP`.
pub proof fn lemma_fall_schedule(n: nat)
    ensures
        clock_fires(clock_after(0, n)) <==> (((n + 1) as int) % (CLOCK_LIMIT as int + 1)) % (TICKS_PER_DROP as int)
            == 0,
{
    lemma_clock_cycles(n);
    lemma_clock_cycles(n + 1);
}

/// A move left followed by a move right (or the reverse) puts the piece back
/// where it was, unchanged.
pub proof fn lemma_left_right_inverse(a: Shape, b: Shape, c: Shape)
    requires
        (shifted(a, b, -1, 0) && shifted(b, c, 1, 0)) || (shifted(a, b, 1, 0) && shifted(b, c, -1, 0)),
    ensures
        c.kind_spec() == a.kind_spec(),
        c.group().same_as(a.group()),
{
}

/// Two moves add up: moving by `(dx1, dy1)` and then by `(dx2, dy2)` moves the
/// piece by their sum.
pub proof fn lemma_shifts_add(a: Shape, b: Shape, c: Shape, dx1: int, dy1: int, dx2: int, dy2: int)
    requires
        shifted(a, b, dx1, dy1),
        shifted(b, c, dx2, dy2),
    ensures
        shifted(a, c, dx1 + dx2, dy1 + dy2),
{
}

/// A piece that falls one row without landing keeps its cells' columns and
/// moves every cell one row down.
pub proof fn lemma_fall_moves_cells(a: Shape, b: Shape)
    requires
        shifted(a, b, 0, 1),
        a.group().num_states_spec() > 0,
    ensures
        b.group().cells_spec().len() == a.group().cells_spec().len(),
        forall|i: int|
            0 <= i < a.group().cells_spec().len() ==> #[trigger] b.group().cells_spec()[i] == (
                a.group().cells_spec()[i].0,
                a.group().cells_spec()[i].1 + 1,
            ),
{
}

} // verus!
