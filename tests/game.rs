use flappy_block::game::{
    draw_gaps, Game, Pipe, BLOCK_SIZE, GAP_MAX, GAP_MIN, GRAVITY, JUMP_IMPULSE, PIPE_SPEED,
    START_X, START_Y, WINDOW_HEIGHT, WINDOW_WIDTH,
};
use flappy_block::geometry::rects_intersect;

fn game_with(gaps: Vec<i64>) -> Game {
    Game::from_gaps(&gaps)
}

#[test]
fn new_places_pipes_and_block() {
    let g = Game::new(3);
    assert_eq!(g.pipes.len(), 3);
    assert_eq!(g.pipes[0].x, 6400);
    assert_eq!(g.pipes[1].x, 8400);
    assert_eq!(g.pipes[2].x, 10400);
    for p in &g.pipes {
        assert!(p.gap_y >= GAP_MIN && p.gap_y < GAP_MAX);
    }
    assert_eq!(g.block_x, START_X);
    assert_eq!(g.block_y, START_Y);
    assert_eq!(g.vel_y, 0);
    assert!(!g.game_over);
}

#[test]
fn new_with_no_pipes() {
    assert_eq!(Game::new(0).pipes.len(), 0);
    assert_eq!(Game::new(-4).pipes.len(), 0);
}

#[test]
fn draw_gaps_stays_in_range() {
    let gaps = draw_gaps(200);
    assert_eq!(gaps.len(), 200);
    assert!(gaps.iter().all(|g| *g >= GAP_MIN && *g < GAP_MAX));
}

#[test]
fn first_update_adds_gravity_only_to_velocity() {
    let mut g = Game::new(3);
    g.update();
    assert_eq!(g.vel_y, GRAVITY);
    assert_eq!(g.vel_y, 2);
    assert_eq!(g.block_y, START_Y);
    assert!(!g.game_over);
    assert_eq!(g.pipes[0].x, WINDOW_WIDTH - PIPE_SPEED);
}

#[test]
fn update_moves_by_velocity_before_tick() {
    let mut g = game_with(vec![1800]);
    g.vel_y = -30;
    g.update();
    assert_eq!(g.block_y, START_Y - 30);
    assert_eq!(g.vel_y, -28);
    g.update();
    assert_eq!(g.block_y, START_Y - 58);
    assert_eq!(g.vel_y, -26);
}

#[test]
fn jump_overwrites_velocity() {
    let mut g = game_with(vec![1800]);
    g.vel_y = 40;
    g.jump();
    assert_eq!(g.vel_y, JUMP_IMPULSE);
    g.vel_y = -400;
    g.jump();
    assert_eq!(g.vel_y, -50);
}

#[test]
fn game_over_freezes_update_and_jump() {
    let mut g = game_with(vec![1800, 900]);
    g.game_over = true;
    g.vel_y = 7;
    g.update();
    g.jump();
    assert!(g.game_over);
    assert_eq!(g.vel_y, 7);
    assert_eq!(g.block_y, START_Y);
    assert_eq!(g.pipes[0], Pipe { x: 6400, gap_y: 1800 });
    assert_eq!(g.pipes[1], Pipe { x: 8400, gap_y: 900 });
}

#[test]
fn reset_is_noop_while_playing() {
    let mut g = game_with(vec![1800]);
    g.block_y = 1000;
    g.vel_y = 12;
    g.pipes[0].x = 300;
    g.reset_with_gaps(&vec![2000]);
    assert_eq!(g.block_y, 1000);
    assert_eq!(g.vel_y, 12);
    assert_eq!(g.pipes[0], Pipe { x: 300, gap_y: 1800 });
    g.reset();
    assert_eq!(g.block_y, 1000);
    assert_eq!(g.pipes[0], Pipe { x: 300, gap_y: 1800 });
    assert!(!g.game_over);
}

#[test]
fn reset_after_loss_restores_start() {
    let mut g = game_with(vec![1800, 1800]);
    g.block_y = 3400;
    g.update();
    assert!(g.game_over);
    g.reset_with_gaps(&vec![600, 3000]);
    assert!(!g.game_over);
    assert_eq!(g.block_x, START_X);
    assert_eq!(g.block_y, START_Y);
    assert_eq!(g.vel_y, 0);
    assert_eq!(g.pipes[0], Pipe { x: 6400, gap_y: 600 });
    assert_eq!(g.pipes[1], Pipe { x: 8400, gap_y: 3000 });

    g.game_over = true;
    g.reset();
    assert!(!g.game_over);
    assert_eq!(g.block_y, START_Y);
    assert_eq!(g.pipes[1].x, 8400);
    assert!(g.pipes[1].gap_y >= GAP_MIN && g.pipes[1].gap_y < GAP_MAX);
}

#[test]
fn pipe_is_recycled_past_left_edge() {
    let mut g = game_with(vec![1800, 1800]);
    g.pipes[0].x = -240;
    g.pipes[1].x = -230;
    g.update_with_gaps(&vec![500, 600]);
    assert_eq!(g.pipes[0], Pipe { x: WINDOW_WIDTH, gap_y: 500 });
    assert_eq!(g.pipes[1], Pipe { x: -BLOCK_SIZE, gap_y: 1800 });
}

#[test]
fn random_recycle_keeps_gap_in_range() {
    let mut g = game_with(vec![1800]);
    g.pipes[0].x = -240;
    g.update();
    assert_eq!(g.pipes[0].x, 6400);
    assert!(g.pipes[0].gap_y >= GAP_MIN && g.pipes[0].gap_y < GAP_MAX);
}

#[test]
fn block_on_bottom_pipe_collides() {
    let mut g = Game::new(1);
    g.pipes[0].x = 4000;
    g.pipes[0].gap_y = 1800;
    g.block_x = 4000;
    g.block_y = 0;
    g.check_collisions();
    assert!(g.game_over);
    assert!(rects_intersect(4000, 0, 25 * 10, 250, 4000, 0, 250, 1350));
}

#[test]
fn block_above_top_of_window_collides() {
    let mut g = Game::new(1);
    g.block_y = 3400;
    assert!(g.block_y + BLOCK_SIZE > WINDOW_HEIGHT);
    g.check_collisions();
    assert!(g.game_over);
}

#[test]
fn block_below_floor_collides() {
    let mut g = game_with(vec![]);
    g.block_y = -1;
    g.check_collisions();
    assert!(g.game_over);
}

#[test]
fn block_in_gap_does_not_collide() {
    let mut g = game_with(vec![1800]);
    g.pipes[0].x = START_X;
    g.check_collisions();
    assert!(!g.game_over);
}

#[test]
fn block_on_top_pipe_collides() {
    let mut g = game_with(vec![1800]);
    g.pipes[0].x = START_X + 100;
    g.block_y = 2200;
    g.check_collisions();
    assert!(g.game_over);
}

#[test]
fn touching_pipe_edge_does_not_collide() {
    let mut g = game_with(vec![1800]);
    g.pipes[0].x = START_X + BLOCK_SIZE;
    g.block_y = 0;
    g.check_collisions();
    assert!(!g.game_over);
    g.pipes[0].x = START_X + BLOCK_SIZE - 1;
    g.check_collisions();
    assert!(g.game_over);
}

#[test]
fn falling_block_ends_game_on_floor() {
    let mut g = game_with(vec![1800]);
    let mut ticks: u32 = 0;
    while !g.game_over && ticks < 1000 {
        g.update();
        ticks += 1;
    }
    assert!(g.game_over);
    assert!(g.block_y + BLOCK_SIZE > WINDOW_HEIGHT || g.block_y < 0 || g.pipes[0].x <= START_X + BLOCK_SIZE);
}

#[test]
fn rects_intersect_cases() {
    assert!(rects_intersect(0, 0, 10, 10, 5, 5, 10, 10));
    assert!(rects_intersect(5, 5, 10, 10, 0, 0, 10, 10));
    assert!(!rects_intersect(0, 0, 10, 10, 10, 0, 10, 10));
    assert!(!rects_intersect(10, 0, 10, 10, 0, 0, 10, 10));
    assert!(!rects_intersect(0, 0, 10, 10, 0, 10, 10, 10));
    assert!(!rects_intersect(0, 0, 10, 10, 20, 20, 5, 5));
    assert!(!rects_intersect(0, 0, 10, 10, 3, 20, 5, 5));
    assert!(rects_intersect(i64::MAX - 5, 0, 10, 10, i64::MAX - 3, 0, 10, 10));
}
