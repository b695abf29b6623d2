use tetris::brick::Brick;
use tetris::brick_group::{BrickColor, BrickGroup};
use tetris::orientation::Orientation;
use tetris::shapes::{get_rand_shape, shape_from_number, Shape, ShapeKind, ShapeSource};

fn offsets(bricks: &Vec<Brick>) -> Vec<(i32, i32)> {
    bricks.iter().map(|b| (b.brick_pos_x, b.brick_pos_y)).collect()
}

#[test]
fn orientation_starts_at_zero_and_cycles() {
    let mut o = Orientation::new(4);
    assert_eq!(o.cur_state(), 0);
    assert_eq!(o.num_states(), 4);
    let mut seen = vec![];
    for _ in 0..8 {
        o.rotate();
        seen.push(o.cur_state());
    }
    assert_eq!(seen, vec![1, 2, 3, 0, 1, 2, 3, 0]);
    assert_eq!(o.num_states(), 4);
}

#[test]
fn orientation_with_one_state_stays() {
    let mut o = Orientation::new(1);
    o.rotate();
    assert_eq!(o.cur_state(), 0);
}

#[test]
fn orientation_with_no_state_stays_at_zero() {
    let mut o = Orientation::new(0);
    o.rotate();
    assert_eq!(o.cur_state(), 0);
}

#[test]
fn orientation_full_turn_returns() {
    for n in 1..6usize {
        let mut o = Orientation::new(n);
        o.rotate();
        let start = o.cur_state();
        for _ in 0..n {
            o.rotate();
        }
        assert_eq!(o.cur_state(), start);
    }
}

#[test]
fn brick_new_keeps_offsets() {
    let b = Brick::new(2, -3);
    assert_eq!(b.brick_pos_x, 2);
    assert_eq!(b.brick_pos_y, -3);
}

#[test]
fn brick_screen_position() {
    let b = Brick::new(1, 2);
    assert_eq!(b.screen_pos(0, 0), (36, 62));
    assert_eq!(b.screen_pos(3, 4), (114, 166));
    assert_eq!(b.screen_pos(-1, -2), (10, 10));
}

#[test]
fn brick_group_new_is_empty() {
    let g = BrickGroup::new(3, 4, 2, BrickColor::Red);
    assert_eq!(g.pos_x(), 3);
    assert_eq!(g.pos_y(), 4);
    assert_eq!(g.num_states(), 2);
    assert_eq!(g.orientation().cur_state(), 0);
    assert_eq!(g.color(), BrickColor::Red);
    assert!(g.current_bricks().is_empty());
    assert!(g.cells().is_empty());
}

#[test]
fn brick_group_add_brick_to_states() {
    let mut g = BrickGroup::new(0, 0, 2, BrickColor::Blue);
    g.add_brick(1, 2, 0);
    g.add_brick(3, 4, 1);
    g.add_brick(5, 6, 0);
    assert_eq!(offsets(g.current_bricks()), vec![(1, 2), (5, 6)]);
    g.rotate();
    assert_eq!(offsets(g.current_bricks()), vec![(3, 4)]);
    g.rotate();
    assert_eq!(offsets(g.current_bricks()), vec![(1, 2), (5, 6)]);
}

#[test]
fn brick_group_moves() {
    let mut g = BrickGroup::new(5, 5, 1, BrickColor::Black);
    g.add_brick(1, 1, 0);
    g.move_right_one();
    assert_eq!((g.pos_x(), g.pos_y()), (6, 5));
    g.move_left_one();
    g.move_left_one();
    assert_eq!((g.pos_x(), g.pos_y()), (4, 5));
    g.move_down_one();
    assert_eq!((g.pos_x(), g.pos_y()), (4, 6));
    assert_eq!(g.cells(), vec![(5, 7)]);
}

#[test]
fn brick_group_left_then_right_restores() {
    let mut g = BrickGroup::new(7, 2, 1, BrickColor::Black);
    g.add_brick(0, 1, 0);
    let before = g.cells();
    g.move_left_one();
    g.move_right_one();
    assert_eq!(g.cells(), before);
    assert_eq!(g.pos_x(), 7);
}

#[test]
fn brick_group_cells_are_absolute() {
    let mut g = BrickGroup::new(2, 3, 1, BrickColor::Green);
    g.add_brick(0, 1, 0);
    g.add_brick(-1, 0, 0);
    assert_eq!(g.cells(), vec![(2, 4), (1, 3)]);
}

#[test]
fn brick_group_describe() {
    let mut g = BrickGroup::new(2, 3, 1, BrickColor::Green);
    g.add_brick(0, 1, 0);
    g.add_brick(-5, 0, 0);
    assert_eq!(g.describe(), "brick :(2,4) (-3,3) \n");
    let empty = BrickGroup::new(0, 0, 1, BrickColor::Green);
    assert_eq!(empty.describe(), "brick :\n");
    let mut far = BrickGroup::new(123, -4567, 1, BrickColor::Green);
    far.add_brick(0, 0, 0);
    assert_eq!(far.describe(), "brick :(123,-4567) \n");
}

#[test]
fn brick_group_clone_is_equal() {
    let mut g = BrickGroup::new(1, 2, 2, BrickColor::Yellow);
    g.add_brick(1, 1, 0);
    g.add_brick(2, 2, 1);
    g.rotate();
    let c = g.clone();
    assert_eq!(c.pos_x(), 1);
    assert_eq!(c.pos_y(), 2);
    assert_eq!(c.color(), BrickColor::Yellow);
    assert_eq!(c.orientation().cur_state(), 1);
    assert_eq!(offsets(c.current_bricks()), vec![(2, 2)]);
}

fn all_states(shape: &Shape) -> Vec<Vec<(i32, i32)>> {
    let mut g = shape.get_brick_group().clone();
    let mut res = vec![];
    for _ in 0..g.num_states() {
        res.push(offsets(g.current_bricks()));
        g.rotate();
    }
    res
}

fn laid(kind: ShapeKind) -> Shape {
    let mut s = Shape::new(kind, 0, 0);
    s.init();
    s
}

#[test]
fn shape_a_layout() {
    let s = laid(ShapeKind::A);
    assert_eq!(s.get_brick_group().color(), BrickColor::Black);
    assert_eq!(
        all_states(&s),
        vec![
            vec![(0, 1), (1, 1), (1, 2), (2, 2)],
            vec![(2, 0), (1, 1), (2, 1), (1, 2)],
            vec![(0, 1), (1, 1), (1, 2), (2, 2)],
            vec![(2, 0), (1, 1), (2, 1), (1, 2)],
        ]
    );
}

#[test]
fn shape_b_layout() {
    let s = laid(ShapeKind::B);
    assert_eq!(s.get_brick_group().color(), BrickColor::Red);
    assert_eq!(
        all_states(&s),
        vec![vec![(0, 1), (1, 1), (2, 1), (3, 1)], vec![(2, 0), (2, 1), (2, 2), (2, 3)]]
    );
}

#[test]
fn shape_c_layout() {
    let s = laid(ShapeKind::C);
    assert_eq!(s.get_brick_group().color(), BrickColor::Green);
    assert_eq!(
        all_states(&s),
        vec![
            vec![(1, 2), (0, 1), (1, 1), (2, 1)],
            vec![(0, 1), (1, 0), (1, 1), (1, 2)],
            vec![(1, 0), (0, 1), (1, 1), (2, 1)],
            vec![(2, 1), (1, 0), (1, 1), (1, 2)],
        ]
    );
}

#[test]
fn shape_d_layout() {
    let s = laid(ShapeKind::D);
    assert_eq!(s.get_brick_group().color(), BrickColor::Blue);
    assert_eq!(
        all_states(&s),
        vec![
            vec![(2, 2), (0, 1), (1, 1), (2, 1)],
            vec![(0, 2), (1, 0), (1, 1), (1, 2)],
            vec![(0, 1), (1, 1), (2, 1), (0, 0)],
            vec![(1, 0), (1, 1), (1, 2), (2, 0)],
        ]
    );
}

#[test]
fn shape_e_layout() {
    let s = laid(ShapeKind::E);
    assert_eq!(s.get_brick_group().color(), BrickColor::Orange);
    assert_eq!(
        all_states(&s),
        vec![
            vec![(0, 2), (0, 1), (1, 1), (2, 1)],
            vec![(0, 0), (1, 0), (1, 1), (1, 2)],
            vec![(2, 0), (0, 1), (1, 1), (2, 1)],
            vec![(2, 2), (1, 0), (1, 1), (1, 2)],
        ]
    );
}

#[test]
fn shape_f_layout() {
    let s = laid(ShapeKind::F);
    assert_eq!(s.get_brick_group().color(), BrickColor::Magenta);
    assert_eq!(all_states(&s), vec![vec![(1, 1), (2, 1), (1, 2), (2, 2)]]);
}

#[test]
fn shape_g_layout() {
    let s = laid(ShapeKind::G);
    assert_eq!(s.get_brick_group().color(), BrickColor::Yellow);
    assert_eq!(
        all_states(&s),
        vec![
            vec![(0, 2), (1, 2), (1, 1), (2, 1)],
            vec![(1, 0), (1, 1), (2, 1), (2, 2)],
            vec![(0, 2), (1, 2), (1, 1), (2, 1)],
            vec![(1, 0), (1, 1), (2, 1), (2, 2)],
        ]
    );
}

#[test]
fn shape_init_twice_doubles_bricks() {
    let mut s = Shape::new(ShapeKind::F, 0, 0);
    s.init();
    s.init();
    assert_eq!(
        offsets(s.get_brick_group().current_bricks()),
        vec![(1, 1), (2, 1), (1, 2), (2, 2), (1, 1), (2, 1), (1, 2), (2, 2)]
    );
}

#[test]
fn shape_new_is_unlaid() {
    let s = Shape::new(ShapeKind::B, 4, 5);
    assert_eq!(s.kind(), ShapeKind::B);
    assert_eq!(s.get_brick_group().num_states(), 2);
    assert_eq!(s.get_brick_group().pos_x(), 4);
    assert_eq!(s.get_brick_group().pos_y(), 5);
    assert!(s.get_brick_group().current_bricks().is_empty());
}

#[test]
fn shape_moves_and_rotation() {
    let mut s = laid(ShapeKind::B);
    s.move_right_one();
    s.move_down_one();
    s.move_down_one();
    s.move_left_one();
    s.move_left_one();
    assert_eq!(s.get_brick_group().pos_x(), -1);
    assert_eq!(s.get_brick_group().pos_y(), 2);
    s.rotate();
    assert_eq!(s.get_brick_group().orientation().cur_state(), 1);
    s.rotate();
    assert_eq!(s.get_brick_group().orientation().cur_state(), 0);
}

#[test]
fn shape_from_number_follows_remainder() {
    let kinds = [
        ShapeKind::A,
        ShapeKind::B,
        ShapeKind::C,
        ShapeKind::D,
        ShapeKind::E,
        ShapeKind::F,
        ShapeKind::G,
    ];
    for n in 0..=255u8 {
        let s = shape_from_number(n, 1, 2);
        assert_eq!(s.kind(), kinds[(n % 7) as usize]);
        assert_eq!(s.get_brick_group().pos_x(), 1);
        assert_eq!(s.get_brick_group().pos_y(), 2);
    }
    assert_eq!(shape_from_number(13, 0, 0).kind(), ShapeKind::G);
    assert_eq!(shape_from_number(255, 0, 0).kind(), ShapeKind::D);
}

#[test]
fn random_shape_is_fresh() {
    let mut source = ShapeSource::new().expect("the entropy source is readable here");
    for _ in 0..50 {
        let s = get_rand_shape(&mut source, 3, 0);
        let g = s.get_brick_group();
        assert_eq!(g.pos_x(), 3);
        assert_eq!(g.pos_y(), 0);
        assert_eq!(g.orientation().cur_state(), 0);
        assert!(g.current_bricks().is_empty());
        let expected_states = match s.kind() {
            ShapeKind::B => 2,
            ShapeKind::F => 1,
            _ => 4,
        };
        assert_eq!(g.num_states(), expected_states);
    }
}

#[test]
fn screen_position_checks() {
    let b = Brick::new(1, 2);
    assert!(b.screen_pos_defined(0, 0));
    assert!(!b.screen_pos_defined(i32::MAX, 0));
    assert!(!b.screen_pos_defined(0, i32::MAX / 20));
    assert!(tetris::brick::fits_screen_check(-3, 1));
    assert!(!tetris::brick::fits_screen_check(i32::MIN, -1));
}

#[test]
fn cells_fit_checks() {
    let mut g = BrickGroup::new(i32::MAX, 0, 1, BrickColor::Red);
    assert!(g.cells_fit_check());
    g.add_brick(0, 0, 0);
    assert!(g.cells_fit_check());
    g.add_brick(1, 0, 0);
    assert!(!g.cells_fit_check());
    let none = BrickGroup::new(0, 0, 0, BrickColor::Red);
    assert!(!none.cells_fit_check());
}

#[test]
fn random_shapes_vary() {
    let mut source = ShapeSource::new().expect("the entropy source is readable here");
    let mut kinds = vec![];
    for _ in 0..200 {
        let k = get_rand_shape(&mut source, 0, 0).kind();
        if !kinds.contains(&k) {
            kinds.push(k);
        }
    }
    assert!(kinds.len() > 1);
}
