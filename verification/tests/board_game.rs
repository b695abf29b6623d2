use tetris::board::Board;
use tetris::brick_group::{BrickColor, BrickGroup};
use tetris::game::{
    down_check, event_check, full_game_continues, piece_play_continues, Game, GameEvent,
    GameStatus, KeyPress,
};
use tetris::geometry::{border_segments, BOARD_BRICK_HEIGHT, BOARD_BRICK_WIDTH};
use tetris::shapes::ShapeKind;

fn filled(board: &Board) -> Vec<(usize, usize)> {
    let mut res = vec![];
    for x in 0..BOARD_BRICK_WIDTH {
        for y in 0..BOARD_BRICK_HEIGHT {
            if board.is_filled(x, y) {
                res.push((x, y));
            }
        }
    }
    res
}

fn group_at(x: i32, y: i32) -> BrickGroup {
    let mut g = BrickGroup::new(x, y, 1, BrickColor::Red);
    g.add_brick(0, 0, 0);
    g.add_brick(1, 0, 0);
    g.add_brick(0, 1, 0);
    g
}

#[test]
fn board_new_is_empty() {
    let b = Board::new();
    assert!(filled(&b).is_empty());
    assert!(b.brick_groups().is_empty());
}

#[test]
fn collide_only_on_bottom_row() {
    let mut b = Board::new();
    let g = group_at(3, 22);
    assert!(!b.collide_w_backgroud(&g));
    let g = group_at(3, 23);
    assert!(b.collide_w_backgroud(&g));
    let g = group_at(3, 24);
    assert!(b.collide_w_backgroud(&g));
    let g = group_at(3, 25);
    assert!(!b.collide_w_backgroud(&g));
    let g = group_at(3, -5);
    assert!(!b.collide_w_backgroud(&g));
    assert!(filled(&b).is_empty());
}

#[test]
fn board_update_fills_and_records() {
    let mut b = Board::new();
    let g = group_at(2, 5);
    b.board_update(&g);
    assert_eq!(filled(&b), vec![(2, 5), (2, 6), (3, 5)]);
    assert_eq!(b.brick_groups().len(), 1);
    assert_eq!(b.brick_groups()[0].cells(), g.cells());
    let g2 = group_at(2, 6);
    b.board_update(&g2);
    assert_eq!(filled(&b), vec![(2, 5), (2, 6), (2, 7), (3, 5), (3, 6)]);
    assert_eq!(b.brick_groups().len(), 2);
}

#[test]
fn update_down_collide_lands_only_on_bottom() {
    let mut b = Board::new();
    assert!(!b.update_down_collide(&group_at(0, 10)));
    assert!(filled(&b).is_empty());
    assert!(b.update_down_collide(&group_at(0, 23)));
    assert_eq!(filled(&b), vec![(0, 23), (0, 24), (1, 23)]);
    assert_eq!(b.brick_groups().len(), 1);
}

#[test]
fn game_new_state() {
    let g = Game::new();
    assert_eq!(g.clock_counter(), 0);
    assert_eq!(g.piece_ref().kind(), ShapeKind::A);
    assert_eq!(g.piece_ref().get_brick_group().pos_x(), 0);
    assert!(filled(g.board()).is_empty());
}

#[test]
fn game_move_down_falls_then_lands() {
    let mut g = Game::new();
    g.init_shape();
    let mut steps = 0;
    while !g.game_move_down_one() {
        steps += 1;
    }
    // kind A's lowest brick sits two rows below the piece
    assert_eq!(steps, 22);
    assert_eq!(g.piece_ref().get_brick_group().pos_y(), 22);
    assert_eq!(filled(g.board()), vec![(0, 23), (1, 23), (1, 24), (2, 24)]);
}

#[test]
fn clock_moves_piece_every_500_events() {
    let mut g = Game::new();
    g.init_shape();
    for i in 1..=499u128 {
        assert!(!g.clock_delay());
        assert_eq!(g.clock_counter(), i);
    }
    assert_eq!(g.piece_ref().get_brick_group().pos_y(), 0);
    assert!(!g.clock_delay());
    assert_eq!(g.clock_counter(), 500);
    assert_eq!(g.piece_ref().get_brick_group().pos_y(), 1);
}

#[test]
fn handle_event_keys() {
    let mut g = Game::new();
    g.init_shape();
    assert_eq!(g.handle_event(GameEvent::Press(KeyPress::Right)), GameStatus::ACTIVE);
    assert_eq!(g.handle_event(GameEvent::Press(KeyPress::Right)), GameStatus::ACTIVE);
    assert_eq!(g.handle_event(GameEvent::Press(KeyPress::Left)), GameStatus::ACTIVE);
    assert_eq!(g.piece_ref().get_brick_group().pos_x(), 1);
    assert_eq!(g.handle_event(GameEvent::Press(KeyPress::Up)), GameStatus::ACTIVE);
    assert_eq!(g.piece_ref().get_brick_group().orientation().cur_state(), 1);
    assert_eq!(g.handle_event(GameEvent::Press(KeyPress::Down)), GameStatus::ACTIVE);
    assert_eq!(g.piece_ref().get_brick_group().pos_y(), 1);
    assert_eq!(g.handle_event(GameEvent::Press(KeyPress::P)), GameStatus::ACTIVE);
    assert_eq!(g.handle_event(GameEvent::Press(KeyPress::Space)), GameStatus::ACTIVE);
    assert_eq!(g.handle_event(GameEvent::Other), GameStatus::ACTIVE);
    assert_eq!(g.handle_event(GameEvent::Press(KeyPress::Escape)), GameStatus::QUIT);
    assert_eq!(g.handle_event(GameEvent::Close), GameStatus::QUIT);
    assert_eq!(g.piece_ref().get_brick_group().pos_x(), 1);
    assert_eq!(g.clock_counter(), 0);
}

#[test]
fn down_key_reports_landing() {
    let mut g = Game::new();
    g.init_shape();
    let mut n = 0;
    loop {
        let s = g.handle_event(GameEvent::Press(KeyPress::Down));
        if s == GameStatus::SHAPE_PLACED {
            break;
        }
        assert_eq!(s, GameStatus::ACTIVE);
        n += 1;
    }
    assert_eq!(n, 22);
    assert_eq!(g.board().brick_groups().len(), 1);
}

#[test]
fn shape_step_ticks_then_handles() {
    let mut g = Game::new();
    g.init_shape();
    assert!(g.step_is_defined(GameEvent::Press(KeyPress::Right)));
    assert_eq!(g.shape_step(GameEvent::Press(KeyPress::Right)), GameStatus::ACTIVE);
    assert_eq!(g.clock_counter(), 1);
    assert_eq!(g.piece_ref().get_brick_group().pos_x(), 1);
    assert_eq!(g.shape_step(GameEvent::Close), GameStatus::QUIT);
    assert_eq!(g.clock_counter(), 2);
}

#[test]
fn shape_step_lands_by_clock() {
    let mut g = Game::new();
    g.init_shape();
    for _ in 0..22 {
        assert_eq!(g.handle_event(GameEvent::Press(KeyPress::Down)), GameStatus::ACTIVE);
    }
    let mut events = 0;
    let status = loop {
        let s = g.shape_step(GameEvent::Other);
        events += 1;
        if s != GameStatus::ACTIVE {
            break s;
        }
    };
    assert_eq!(status, GameStatus::SHAPE_PLACED);
    assert_eq!(events, 500);
}

#[test]
fn step_definedness_checks() {
    let mut g = Game::new();
    g.init_shape();
    // move the piece off the left edge, then let it fall to the bottom
    for _ in 0..3 {
        g.handle_event(GameEvent::Press(KeyPress::Left));
    }
    for _ in 0..22 {
        g.handle_event(GameEvent::Press(KeyPress::Down));
    }
    assert!(g.step_is_defined(GameEvent::Other));
    assert!(!g.step_is_defined(GameEvent::Press(KeyPress::Down)));
    let grp = g.piece_ref().get_brick_group();
    assert_eq!(down_check(grp, grp.pos_y() as i64), (false, true));
    assert_eq!(down_check(grp, 3), (true, false));
    assert!(event_check(grp, 3, GameEvent::Press(KeyPress::Left)));
    assert!(!event_check(grp, grp.pos_y() as i64, GameEvent::Press(KeyPress::Down)));
}

#[test]
fn down_check_rejects_row_minus_one() {
    let g = group_at(0, -1);
    assert_eq!(down_check(&g, -1), (false, false));
    let g2 = group_at(0, 0);
    assert_eq!(down_check(&g2, 0), (true, false));
    let empty = BrickGroup::new(0, 0, 0, BrickColor::Red);
    assert_eq!(down_check(&empty, 0).0, false);
}

#[test]
fn full_game_stops_only_on_quit() {
    assert!(!full_game_continues(GameStatus::QUIT));
    assert!(full_game_continues(GameStatus::SHAPE_PLACED));
    assert!(full_game_continues(GameStatus::ACTIVE));
    assert!(full_game_continues(GameStatus::PAUSED));
}

#[test]
fn random_shape_for_game() {
    let mut g = Game::new();
    let mut source = tetris::shapes::ShapeSource::new().expect("the entropy source is readable here");
    g.choose_random_shape(&mut source);
    assert_eq!(g.piece_ref().get_brick_group().pos_x(), 0);
    assert_eq!(g.piece_ref().get_brick_group().pos_y(), 0);
    g.init_shape();
    assert_eq!(g.piece_ref().get_brick_group().current_bricks().len(), 4);
}

#[test]
fn border_is_frame_inside_margin() {
    assert_eq!(
        border_segments(),
        vec![(10, 10, 400, 10), (400, 10, 400, 660), (400, 660, 10, 660), (10, 660, 10, 10)]
    );
}

#[test]
fn clock_lands_piece_after_its_fall() {
    let mut g = Game::new();
    g.init_shape();
    let mut ticks = 0u32;
    loop {
        assert!(g.step_is_defined(GameEvent::Other));
        ticks += 1;
        if g.clock_delay() {
            break;
        }
    }
    // 22 falls of one row, then the landing, one every 500 events
    assert_eq!(ticks, 23 * 500);
    assert_eq!(g.board().brick_groups().len(), 1);
}

#[test]
fn falling_moves_every_cell_one_row_down() {
    let mut g = Game::new();
    g.init_shape();
    let before = g.piece_ref().get_brick_group().cells();
    assert!(!g.game_move_down_one());
    let after = g.piece_ref().get_brick_group().cells();
    let expected: Vec<(i32, i32)> = before.iter().map(|&(x, y)| (x, y + 1)).collect();
    assert_eq!(after, expected);
    assert!(filled(g.board()).is_empty());
}

#[test]
fn landing_keeps_earlier_cells() {
    let mut b = Board::new();
    b.board_update(&group_at(5, 20));
    let first = filled(&b);
    b.board_update(&group_at(9, 3));
    let second = filled(&b);
    for cell in first {
        assert!(second.contains(&cell));
    }
    assert_eq!(second.len(), 6);
}

#[test]
fn piece_play_goes_on_only_while_active() {
    assert!(piece_play_continues(GameStatus::ACTIVE));
    assert!(!piece_play_continues(GameStatus::SHAPE_PLACED));
    assert!(!piece_play_continues(GameStatus::QUIT));
    assert!(!piece_play_continues(GameStatus::PAUSED));
}

#[test]
fn piece_stays_on_board_rows_while_falling() {
    let mut g = Game::new();
    g.init_shape();
    loop {
        let landed = g.game_move_down_one();
        for (_, y) in g.piece_ref().get_brick_group().cells() {
            assert!(0 <= y && y < BOARD_BRICK_HEIGHT as i32);
        }
        if landed {
            break;
        }
    }
}

#[test]
fn clock_counts_events_between_falls() {
    let mut g = Game::new();
    g.init_shape();
    let mut falls = 0u32;
    while falls < 20 {
        let before = g.piece_ref().get_brick_group().pos_y();
        assert!(!g.clock_delay());
        if g.piece_ref().get_brick_group().pos_y() != before {
            falls += 1;
            assert_eq!(g.clock_counter() % 500, 0);
        }
    }
    assert_eq!(g.clock_counter(), 20 * 500);
}
