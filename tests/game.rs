use rusty_bird::{BodyCommand, Config, Game, Gate, Player, RecycleMode, Role, TickInput};

fn input(jump: bool, collisions: u32, x: i64, y: i64) -> TickInput {
    TickInput { jump, collisions, player_x: x, player_y: y }
}

fn draws(g: &Game, d: i64) -> Vec<i64> {
    vec![d; g.gates.len()]
}

fn started_game() -> Game {
    let mut g = Game::classic();
    let ds = draws(&g, 0);
    g.step(input(true, 0, 0, 100), &ds, -1000);
    g
}

#[test]
fn first_jump_sets_impulse_and_starts() {
    let mut g = Game::classic();
    let ds = draws(&g, 0);
    let cmd = g.step(input(true, 0, 0, 100), &ds, -1000);
    assert_eq!(cmd.velocity_y, Some(300));
    assert!(g.player.started);
    assert_eq!(g.player.hops, 1);
    assert!(!g.player.dead);
    assert_eq!(cmd.gravity_scale, 20);
    assert_eq!(cmd.angular_velocity, None);
}

#[test]
fn first_jump_with_random_tick() {
    let mut g = Game::classic();
    let cmd = g.tick(input(true, 0, 0, 100));
    assert_eq!(cmd.velocity_y, Some(300));
    assert!(g.player.started);
    assert_eq!(g.player.hops, 1);
}

#[test]
fn collision_on_fifth_tick_kills_with_spin() {
    let mut g = Game::classic();
    g.tick(input(true, 0, 0, 100));
    for _ in 1..5 {
        let cmd = g.tick(input(false, 0, 0, 100));
        assert_eq!(cmd.angular_velocity, None);
        assert!(!g.player.dead);
    }
    let cmd = g.tick(input(false, 1, 0, 100));
    assert!(g.player.dead);
    let spin = cmd.angular_velocity.unwrap();
    assert!(-5000 <= spin && spin < 0);
}

#[test]
fn roof_breach_kills() {
    let mut g = started_game();
    let ds = draws(&g, 0);
    let cmd = g.step(input(false, 0, 0, 255), &ds, -2500);
    assert!(g.player.dead);
    assert_eq!(cmd.angular_velocity, Some(-2500));
}

#[test]
fn just_below_roof_survives() {
    let mut g = started_game();
    let ds = draws(&g, 0);
    g.step(input(false, 0, 0, 254), &ds, -2500);
    assert!(!g.player.dead);
}

#[test]
fn gate_recycles_once_in_570_ticks() {
    let config = Config {
        screen_width: 300,
        margin: 20,
        layout_offset: 100,
        scroll_step: 1,
        ..Config::classic()
    };
    let mut g = Game::new(config, Player::new(0, 100), vec![Gate::new(Role::Bottom, 400, 0)]);
    let ds = vec![10];
    g.step(input(true, 0, 0, 100), &ds, -1);
    assert_eq!(g.gates[0].x, 399);
    let mut recycles = 0;
    let mut recycled_on = 0;
    for t in 2..=600 {
        let before = g.gates[0].x;
        g.step(input(false, 0, 0, 100), &ds, -1);
        if g.gates[0].x > before {
            recycles += 1;
            recycled_on = t;
            assert_eq!(before, -170);
            assert_eq!(g.gates[0].x, 250);
            assert_eq!(g.gates[0].y, 10 - 100);
        }
    }
    assert_eq!(recycles, 1);
    assert_eq!(recycled_on, 571);
}

#[test]
fn recycled_height_within_bounds_with_random_draws() {
    let mut config = Config::classic();
    config.recycle = RecycleMode::PerGate;
    let gates = vec![Gate::new(Role::Top, -169, 0), Gate::new(Role::Bottom, -170, 0)];
    let mut g = Game::new(config, Player::new(0, 100), gates);
    g.tick(input(true, 0, 0, 100));
    assert_eq!(g.gates[0].x, -170);
    assert_eq!(g.gates[1].x, 250);
    assert!(-150 <= g.gates[1].y && g.gates[1].y < -50);
    g.tick(input(false, 0, 0, 100));
    assert_eq!(g.gates[0].x, 250);
    assert_eq!(g.gates[1].x, 249);
    assert!(125 <= g.gates[0].y && g.gates[0].y < 225);
}

#[test]
fn shared_draw_keeps_lane_gap() {
    for _ in 0..20 {
        let gates = vec![Gate::new(Role::Bottom, -170, 0), Gate::new(Role::Top, -170, 0)];
        let mut g = Game::new(Config::classic(), Player::new(0, 100), gates);
        g.tick(input(true, 0, 0, 100));
        assert_eq!(g.gates[1].y - g.gates[0].y, 275);
        assert!(-150 <= g.gates[0].y && g.gates[0].y < -50);
    }
}

#[test]
fn score_on_exact_pass_only() {
    let gates = vec![Gate::new(Role::Top, 4, 250), Gate::new(Role::Bottom, 4, -50)];
    let mut g = Game::new(Config::classic(), Player::new(0, 100), gates);
    let ds = vec![0, 0];
    g.step(input(true, 0, 0, 100), &ds, -1);
    assert_eq!(g.gates[0].x, 3);
    assert_eq!(g.player.score, 0);
    g.step(input(false, 0, 0, 100), &ds, -1);
    assert_eq!(g.player.score, 0);
    g.step(input(false, 0, 0, 100), &ds, -1);
    assert_eq!(g.gates[0].x, 1);
    assert_eq!(g.player.score, 0);
    g.step(input(false, 0, 0, 100), &ds, -1);
    assert_eq!(g.gates[0].x, 0);
    assert_eq!(g.player.score, 1);
    g.step(input(false, 0, 0, 100), &ds, -1);
    assert_eq!(g.player.score, 1);
}

#[test]
fn idle_player_held_still() {
    let mut g = Game::classic();
    for _ in 0..10 {
        let cmd = g.tick(input(false, 0, 0, 100));
        assert_eq!(
            cmd,
            BodyCommand { velocity_y: Some(0), angular_velocity: None, gravity_scale: 0 }
        );
        assert_eq!(g.gates[0].x, 200);
        assert_eq!(g.gates[3].x, 400);
        assert!(!g.player.started);
    }
}

#[test]
fn idle_collision_is_ignored() {
    let mut g = Game::classic();
    g.tick(input(false, 3, 0, 300));
    assert!(!g.player.dead);
    assert!(!g.player.started);
}

#[test]
fn dead_player_ignores_jumps() {
    let mut g = started_game();
    let ds = draws(&g, 0);
    g.step(input(true, 0, 0, 100), &ds, -1);
    assert_eq!(g.player.hops, 2);
    g.step(input(false, 1, 0, 100), &ds, -1);
    assert!(g.player.dead);
    for _ in 0..5 {
        let cmd = g.step(input(true, 1, 0, 100), &ds, -7);
        assert_eq!(cmd.velocity_y, None);
        assert_eq!(cmd.angular_velocity, None);
        assert_eq!(g.player.hops, 2);
        assert!(g.player.dead);
    }
}

#[test]
fn dead_player_scores_no_more() {
    let gates = vec![Gate::new(Role::Top, 2, 250)];
    let mut g = Game::new(Config::classic(), Player::new(0, 100), gates);
    let ds = vec![0];
    g.step(input(true, 0, 0, 100), &ds, -1);
    g.step(input(false, 1, 0, 100), &ds, -1);
    assert_eq!(g.gates[0].x, 0);
    assert_eq!(g.player.score, 0);
}

#[test]
fn score_never_drops_over_a_run() {
    let mut g = Game::classic();
    let mut last = g.player.score;
    for t in 0..2000 {
        g.tick(input(t % 40 == 0, 0, 0, 100));
        assert!(g.player.score >= last);
        last = g.player.score;
    }
    assert!(last >= 4);
}

#[test]
fn score_saturates_at_max() {
    let mut p = Player::new(0, 0);
    p.started = true;
    p.score = i32::MAX;
    let gates = vec![Gate::new(Role::Top, 1, 0)];
    let mut g = Game::new(Config::classic(), p, gates);
    g.step(input(false, 0, 0, 0), &vec![0], -1);
    assert_eq!(g.player.score, i32::MAX);
}

#[test]
fn score_text_shows_digits() {
    let mut p = Player::new(0, 0);
    assert_eq!(p.score_text(), "0");
    p.started = true;
    p.score = 42;
    assert_eq!(p.score_text(), "42");
    p.score = 1070;
    assert_eq!(p.score_text(), "1070");
    assert_eq!(p.death_message(), None);
}

#[test]
fn death_message_shows_score() {
    let mut p = Player::new(0, 0);
    p.started = true;
    p.score = 7;
    assert_eq!(p.die(-3), Some(-3));
    assert_eq!(
        p.death_message(),
        Some("You died! Restart the game to play again. Score: 7".to_string())
    );
    assert_eq!(p.die(-4), None);
}

#[test]
fn jump_without_press_after_start_leaves_velocity() {
    let mut p = Player::new(0, 0);
    assert_eq!(p.jump(false, 300), Some(0));
    assert_eq!(p.jump(true, 300), Some(300));
    assert_eq!(p.jump(false, 300), None);
    assert_eq!(p.hops, 1);
}

#[test]
fn gate_advance_reports_recycle() {
    let c = Config::classic();
    let mut gate = Gate::new(Role::Top, -169, 0);
    assert!(!gate.advance(&c, 5));
    assert_eq!(gate.x, -170);
    assert!(gate.advance(&c, 5));
    assert_eq!((gate.x, gate.y), (250, 180));
}

#[test]
fn random_heights_vary() {
    let mut config = Config::classic();
    config.recycle = RecycleMode::PerGate;
    let gates: Vec<Gate> = (0..100).map(|_| Gate::new(Role::Bottom, -170, 0)).collect();
    let mut g = Game::new(config, Player::new(0, 100), gates);
    g.tick(input(true, 0, 0, 100));
    let first = g.gates[0].y;
    assert!(g.gates.iter().all(|gate| gate.x == 250 && -150 <= gate.y && gate.y < -50));
    assert!(g.gates.iter().any(|gate| gate.y != first));
}
