use jumping_bird::bird::Bird;
use jumping_bird::config::{GAME_HEIGHT, GAME_WIDTH, MAX_JUMPS, SPAWN_RATE};
use jumping_bird::driver::{Driver, Phase};
use jumping_bird::game::{display_score, Game};
use jumping_bird::input::{is_jump_key, is_quit_key, KeyCode};
use jumping_bird::obstacle::{Obstacle, ObstacleType};
use jumping_bird::render::{cell_glyph, game_grid, obstacle_glyph, BIRD_GLYPH, GROUND_GLYPH};

fn bird_at(x: u16, y: u16) -> Bird {
    Bird { x, y, velocity: 0, jumps_left: MAX_JUMPS, is_jumping: false }
}

#[test]
fn new_bird_starts_at_rest_mid_field() {
    let b = Bird::new();
    assert_eq!((b.x, b.y, b.velocity, b.jumps_left, b.is_jumping), (5, 10, 0, 3, false));
}

#[test]
fn jump_sets_upward_velocity_and_spends_a_jump() {
    let mut b = Bird::new();
    b.jump();
    assert_eq!(b.velocity, -40);
    assert_eq!(b.jumps_left, 2);
    assert!(b.is_jumping);
}

#[test]
fn jump_without_jumps_left_changes_nothing() {
    let mut b = Bird { x: 5, y: 7, velocity: 6, jumps_left: 0, is_jumping: true };
    let before = b;
    b.jump();
    assert_eq!(b, before);
}

#[test]
fn jumps_run_out_after_max_jumps() {
    let mut b = bird_at(5, 8);
    for _ in 0..MAX_JUMPS {
        b.jump();
    }
    assert_eq!(b.jumps_left, 0);
    let before = b;
    b.jump();
    assert_eq!(b.jumps_left, 0);
    assert_eq!(b, before);
}

#[test]
fn free_fall_rows_truncate_toward_zero() {
    let mut b = Bird::new();
    let mut rows = Vec::new();
    for _ in 0..11 {
        b.update();
        rows.push(b.y);
    }
    assert_eq!(rows, vec![10, 10, 10, 10, 11, 12, 13, 14, 15, 17, 19]);
    assert_eq!(b.velocity, 0);
}

#[test]
fn landing_refills_jumps_and_stops_the_bird() {
    let mut b = Bird { x: 5, y: 18, velocity: 20, jumps_left: 0, is_jumping: true };
    b.update();
    assert_eq!(b.y, GAME_HEIGHT - 1);
    assert_eq!(b.jumps_left, MAX_JUMPS);
    assert_eq!(b.velocity, 0);
    assert!(!b.is_jumping);
}

#[test]
fn jump_from_ground_rises_four_rows() {
    let mut b = bird_at(5, 19);
    b.jump();
    b.update();
    assert_eq!(b.y, 15);
    assert_eq!(b.velocity, -38);
}

#[test]
fn ceiling_stops_upward_motion() {
    let mut b = Bird { x: 5, y: 1, velocity: -40, jumps_left: 2, is_jumping: true };
    b.update();
    assert_eq!(b.y, 0);
    assert_eq!(b.velocity, 0);
    assert!(b.is_jumping);
}

#[test]
fn bird_stays_in_field_with_repeated_jumps() {
    let mut b = Bird::new();
    for tick in 0..500u32 {
        if tick % 3 == 0 {
            b.jump();
        }
        b.update();
        assert!(b.y <= GAME_HEIGHT - 1);
        assert!(b.jumps_left <= MAX_JUMPS);
    }
}

#[test]
fn obstacle_widths_follow_type() {
    assert_eq!(Obstacle::new(1, 2, ObstacleType::Tree).width, 3);
    assert_eq!(Obstacle::new(1, 2, ObstacleType::Rock).width, 2);
    assert_eq!(Obstacle::new(1, 2, ObstacleType::Cloud).width, 4);
    assert_eq!(ObstacleType::Cloud.width(), 4);
}

#[test]
fn obstacle_update_stops_at_zero() {
    let mut o = Obstacle::new(1, 18, ObstacleType::Rock);
    o.update();
    assert_eq!(o.x, 0);
    o.update();
    assert_eq!(o.x, 0);
}

#[test]
fn obstacle_scroll_stops_at_left_edge() {
    let mut o = Obstacle::new(GAME_WIDTH, 18, ObstacleType::Tree);
    for tick in 1..=(GAME_WIDTH + o.width) {
        o.update();
        assert_eq!(o.x, GAME_WIDTH.saturating_sub(tick));
    }
    assert_eq!(o.x, 0);
    assert!(!o.is_off_screen());
}

#[test]
fn zero_width_obstacle_at_left_edge_is_off_screen() {
    let o = Obstacle { x: 0, y: 3, width: 0, obstacle_type: ObstacleType::Cloud };
    assert!(o.is_off_screen());
    let p = Obstacle { x: 0, y: 3, width: 1, obstacle_type: ObstacleType::Cloud };
    assert!(!p.is_off_screen());
}

#[test]
fn collision_on_shared_cell_and_none_apart() {
    let b = bird_at(5, 10);
    assert!(Obstacle::new(5, 10, ObstacleType::Rock).collides_with_bird(&b));
    assert!(!Obstacle::new(8, 10, ObstacleType::Rock).collides_with_bird(&b));
    assert!(Obstacle::new(3, 10, ObstacleType::Tree).collides_with_bird(&b));
    assert!(!Obstacle::new(2, 10, ObstacleType::Tree).collides_with_bird(&b));
    assert!(!Obstacle::new(5, 11, ObstacleType::Rock).collides_with_bird(&b));
}

#[test]
fn keys_are_told_apart() {
    assert!(is_jump_key(KeyCode::Char(' ')));
    assert!(!is_jump_key(KeyCode::Char('q')));
    assert!(is_quit_key(KeyCode::Char('q')));
    assert!(is_quit_key(KeyCode::Esc));
    assert!(!is_quit_key(KeyCode::Char('Q')));
    assert!(!is_quit_key(KeyCode::Other));
}

#[test]
fn handle_input_jumps_quits_and_ignores() {
    let mut g = Game::new();
    g.handle_input(KeyCode::Char('x'));
    assert_eq!(g.bird, Bird::new());
    g.handle_input(KeyCode::Char(' '));
    assert_eq!(g.bird.jumps_left, 2);
    g.handle_input(KeyCode::Esc);
    assert!(g.game_over);
    g.handle_input(KeyCode::Char(' '));
    assert_eq!(g.bird.jumps_left, 2);

    let mut h = Game::new();
    h.handle_input(KeyCode::Char('q'));
    assert!(h.game_over);
}

#[test]
fn fresh_game_falls_lands_and_spawns_a_tree() {
    let mut g = Game::new();
    g.update();
    assert_eq!(g.obstacles.len(), 1);
    assert_eq!(g.obstacles[0].obstacle_type, ObstacleType::Tree);
    assert_eq!(g.obstacles[0].y, GAME_HEIGHT - 2);
    assert_eq!(g.obstacles[0].x, GAME_WIDTH);
    for _ in 1..15 {
        g.update();
    }
    assert_eq!(g.bird.y, GAME_HEIGHT - 1);
    assert_eq!(g.bird.jumps_left, MAX_JUMPS);
    assert_eq!(g.bird.velocity, 0);
    assert!(!g.game_over);
    assert_eq!(g.obstacles.len(), 1);
    assert_eq!(g.obstacles[0].x, GAME_WIDTH - 14);
}

#[test]
fn spawn_types_cycle_tree_rock_cloud() {
    let mut g = Game::new();
    for _ in 0..(3 * SPAWN_RATE + 1) {
        g.update();
    }
    assert!(!g.game_over);
    let types: Vec<ObstacleType> = g.obstacles.iter().map(|o| o.obstacle_type).collect();
    assert_eq!(
        types,
        vec![ObstacleType::Tree, ObstacleType::Rock, ObstacleType::Cloud, ObstacleType::Tree]
    );
    let rows: Vec<u16> = g.obstacles.iter().map(|o| o.y).collect();
    assert_eq!(rows, vec![18, 18, 3, 18]);
}

#[test]
fn forced_collision_freezes_the_game() {
    let mut g = Game::new();
    g.obstacles.push(Obstacle::new(6, 10, ObstacleType::Rock));
    g.update();
    assert!(g.game_over);
    assert_eq!(g.score, 1);
    let (bird, obstacles, score, frames) = (g.bird, g.obstacles.clone(), g.score, g.frame_count);
    for _ in 0..5 {
        g.update();
    }
    assert_eq!(g.bird, bird);
    assert_eq!(g.obstacles, obstacles);
    assert_eq!((g.score, g.frame_count), (score, frames));
    assert!(g.game_over);
}

#[test]
fn score_counts_ticks_and_shows_tenths() {
    let mut g = Game::new();
    for _ in 0..25 {
        g.update();
    }
    assert!(!g.game_over);
    assert_eq!(g.score, 25);
    assert_eq!(g.frame_count, 25);
    assert_eq!(display_score(g.score), 2);
    assert_eq!(display_score(9), 0);
    assert_eq!(display_score(u32::MAX), 429_496_729);
}

#[test]
fn grid_draws_ground_bird_and_obstacles() {
    let mut g = Game::new();
    let grid = game_grid(&g);
    assert_eq!(grid.len(), GAME_HEIGHT as usize);
    assert!(grid.iter().all(|row| row.len() == GAME_WIDTH as usize));
    assert!(grid[19].iter().all(|c| *c == GROUND_GLYPH));
    assert_eq!(grid[10][5], BIRD_GLYPH);
    assert_eq!(grid[10][4], ' ');
    g.update();
    g.update();
    let grid = game_grid(&g);
    assert_eq!(grid[18][79], obstacle_glyph(ObstacleType::Tree));
    assert_eq!(grid[18][78], ' ');
    assert_eq!(cell_glyph(&g, 18, 79), '\u{1F332}');
}

#[test]
fn later_obstacle_is_drawn_on_top() {
    let mut g = Game::new();
    g.obstacles.push(Obstacle::new(10, 19, ObstacleType::Tree));
    g.obstacles.push(Obstacle::new(11, 19, ObstacleType::Rock));
    assert_eq!(cell_glyph(&g, 19, 10), obstacle_glyph(ObstacleType::Tree));
    assert_eq!(cell_glyph(&g, 19, 11), obstacle_glyph(ObstacleType::Rock));
    assert_eq!(cell_glyph(&g, 19, 12), '\u{25C6}');
    assert_eq!(cell_glyph(&g, 19, 13), GROUND_GLYPH);
    assert_eq!(obstacle_glyph(ObstacleType::Cloud), '\u{2601}');
}

#[test]
fn driver_waits_ticks_and_confirms_quit() {
    assert_eq!(Driver::poll_timeout(30_000_000), 70_000_000);
    assert_eq!(Driver::poll_timeout(100_000_000), 0);
    assert_eq!(Driver::poll_timeout(250_000_000), 0);

    let mut d = Driver::new();
    assert!(!d.run_pass(None, 99_999_999));
    assert_eq!(d.game.score, 0);
    assert!(d.run_pass(Some(KeyCode::Char(' ')), 100_000_000));
    assert_eq!(d.game.score, 1);
    assert_eq!(d.game.bird.jumps_left, 2);
    assert_eq!(d.phase, Phase::Running);

    d.confirm_quit(KeyCode::Char('q'));
    assert_eq!(d.phase, Phase::Running);
    assert!(!d.run_pass(Some(KeyCode::Esc), 0));
    assert_eq!(d.phase, Phase::AwaitingQuit);
    d.confirm_quit(KeyCode::Char(' '));
    assert!(!d.is_finished());
    d.confirm_quit(KeyCode::Char('q'));
    assert!(d.is_finished());
}
