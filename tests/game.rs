use ball_game::{
    confine_enemy_movement, confine_player_movement, enemy_from_draws, enemy_movement,
    player_movement, spawn_camera, spawn_enemies, spawn_player, update_enemy_direction, Config,
    Direction, Enemy, Keys, Player, Position, Window, World, ENEMY_SIZE, ENEMY_SPEED,
    NUMBER_OF_ENEMIES, PLAYER_SIZE, PLAYER_SPEED, UNITS_PER_PIXEL,
};

const PX: i64 = UNITS_PER_PIXEL;

fn window() -> Window {
    Window { width: 800, height: 600 }
}

fn no_keys() -> Keys {
    Keys { up: false, down: false, left: false, right: false }
}

fn at(x_px: i64, y_px: i64) -> Position {
    Position { x: x_px * PX, y: y_px * PX }
}

fn enemy(x_px: i64, y_px: i64, dx: i64, dy: i64) -> Enemy {
    Enemy { position: at(x_px, y_px), direction: Direction { x: dx, y: dy } }
}

#[test]
fn default_config_holds_the_constants() {
    let c = Config::default();
    assert_eq!(c.player_speed, PLAYER_SPEED);
    assert_eq!(c.player_size, PLAYER_SIZE);
    assert_eq!(c.enemy_size, ENEMY_SIZE);
    assert_eq!(c.number_of_enemies, NUMBER_OF_ENEMIES);
    assert_eq!(c.enemy_speed, ENEMY_SPEED);
    assert_eq!((PLAYER_SPEED, PLAYER_SIZE, ENEMY_SIZE, NUMBER_OF_ENEMIES, ENEMY_SPEED), (500, 64, 64, 5, 100));
}

#[test]
fn holding_right_for_a_second_then_confining() {
    let c = Config::default();
    let mut w = World { player: Some(Player { position: at(400, 300) }), enemies: vec![] };
    let keys = Keys { right: true, ..no_keys() };
    player_movement(&mut w, &c, keys, 1000);
    assert_eq!(w.player.unwrap().position, at(900, 300));
    confine_player_movement(&mut w, &c, &window());
    assert_eq!(w.player.unwrap().position, at(768, 300));
}

#[test]
fn diagonal_movement_is_scaled_to_unit_length() {
    let c = Config::default();
    let mut w = World { player: Some(Player { position: at(400, 300) }), enemies: vec![] };
    let keys = Keys { up: true, right: true, ..no_keys() };
    player_movement(&mut w, &c, keys, 1000);
    let p = w.player.unwrap().position;
    assert_eq!(p.x, 400 * PX + 707 * 500 * 1000);
    assert_eq!(p.y, 300 * PX + 707 * 500 * 1000);
}

#[test]
fn opposite_keys_cancel() {
    let c = Config::default();
    let mut w = World { player: Some(Player { position: at(400, 300) }), enemies: vec![] };
    let keys = Keys { up: true, down: true, left: true, right: true };
    player_movement(&mut w, &c, keys, 16);
    assert_eq!(w.player.unwrap().position, at(400, 300));
}

#[test]
fn left_and_down_move_towards_the_origin() {
    let c = Config::default();
    let mut w = World { player: Some(Player { position: at(400, 300) }), enemies: vec![] };
    player_movement(&mut w, &c, Keys { left: true, ..no_keys() }, 100);
    assert_eq!(w.player.unwrap().position, at(350, 300));
    player_movement(&mut w, &c, Keys { down: true, ..no_keys() }, 100);
    assert_eq!(w.player.unwrap().position, at(350, 250));
}

#[test]
fn zero_elapsed_time_moves_nothing() {
    let c = Config::default();
    let mut w = World {
        player: Some(Player { position: at(10, 20) }),
        enemies: vec![enemy(100, 100, 600, 800), enemy(5, 700, -1000, 0)],
    };
    player_movement(&mut w, &c, Keys { up: true, right: true, ..no_keys() }, 0);
    enemy_movement(&mut w, &c, 0);
    assert_eq!(w.player.unwrap().position, at(10, 20));
    assert_eq!(w.enemies, vec![enemy(100, 100, 600, 800), enemy(5, 700, -1000, 0)]);
}

#[test]
fn movement_without_a_player_does_nothing() {
    let c = Config::default();
    let mut w = World { player: None, enemies: vec![] };
    player_movement(&mut w, &c, Keys { right: true, ..no_keys() }, 1000);
    confine_player_movement(&mut w, &c, &window());
    assert!(w.player.is_none());
}

#[test]
fn enemies_move_along_their_headings() {
    let c = Config::default();
    let mut w = World { player: None, enemies: vec![enemy(100, 100, 600, 800), enemy(300, 200, -1000, 0)] };
    enemy_movement(&mut w, &c, 500);
    assert_eq!(w.enemies[0], enemy(130, 140, 600, 800));
    assert_eq!(w.enemies[1], enemy(250, 200, -1000, 0));
}

#[test]
fn movement_saturates_at_the_integer_limit() {
    let c = Config::default();
    let start = Position { x: i64::MAX - 10, y: 0 };
    let mut w = World { player: Some(Player { position: start }), enemies: vec![] };
    player_movement(&mut w, &c, Keys { right: true, ..no_keys() }, 1000);
    assert_eq!(w.player.unwrap().position, Position { x: i64::MAX, y: 0 });
}

#[test]
fn confinement_keeps_every_enemy_inside() {
    let c = Config::default();
    let mut w = World {
        player: None,
        enemies: vec![enemy(-50, 300, 1, 2), enemy(900, 700, 3, 4), enemy(400, 10, 5, 6), enemy(400, 300, 7, 8)],
    };
    confine_enemy_movement(&mut w, &c, &window());
    assert_eq!(w.enemies[0], enemy(32, 300, 1, 2));
    assert_eq!(w.enemies[1], enemy(768, 568, 3, 4));
    assert_eq!(w.enemies[2], enemy(400, 32, 5, 6));
    assert_eq!(w.enemies[3], enemy(400, 300, 7, 8));
    for e in &w.enemies {
        assert!(32 * PX <= e.position.x && e.position.x <= 768 * PX);
        assert!(32 * PX <= e.position.y && e.position.y <= 568 * PX);
    }
}

#[test]
fn confinement_clamps_the_player_at_each_edge() {
    let c = Config::default();
    let mut w = World { player: Some(Player { position: at(-1, 1000) }), enemies: vec![] };
    confine_player_movement(&mut w, &c, &window());
    assert_eq!(w.player.unwrap().position, at(32, 568));
    w.player = Some(Player { position: at(2000, -7) });
    confine_player_movement(&mut w, &c, &window());
    assert_eq!(w.player.unwrap().position, at(768, 32));
}

#[test]
fn enemy_below_the_floor_turns_up() {
    let c = Config::default();
    let mut w = World { player: None, enemies: vec![Enemy { position: Position { x: 400 * PX, y: 31 * PX }, direction: Direction { x: 866, y: -500 } }] };
    let cues = update_enemy_direction(&mut w, &c, &window());
    assert!(w.enemies[0].direction.y >= 0);
    assert_eq!(w.enemies[0].direction, Direction { x: 866, y: 500 });
    assert_eq!(cues, vec![true]);
}

#[test]
fn enemy_past_the_top_turns_down() {
    let c = Config::default();
    let mut w = World { player: None, enemies: vec![enemy(400, 598, 600, 800)] };
    let cues = update_enemy_direction(&mut w, &c, &window());
    assert_eq!(w.enemies[0], enemy(400, 598, 600, -800));
    assert_eq!(cues, vec![true]);
}

#[test]
fn enemy_past_the_sides_turns_back() {
    let c = Config::default();
    let mut w = World { player: None, enemies: vec![enemy(10, 300, -600, 800), enemy(790, 300, 600, -800)] };
    let cues = update_enemy_direction(&mut w, &c, &window());
    assert_eq!(w.enemies[0].direction, Direction { x: 600, y: 800 });
    assert_eq!(w.enemies[1].direction, Direction { x: -600, y: -800 });
    assert_eq!(cues, vec![true, true]);
}

#[test]
fn heading_already_away_from_the_edge_is_kept() {
    let c = Config::default();
    let mut w = World { player: None, enemies: vec![enemy(400, 10, 0, 1000)] };
    let cues = update_enemy_direction(&mut w, &c, &window());
    assert_eq!(w.enemies[0].direction, Direction { x: 0, y: 1000 });
    assert_eq!(cues, vec![true]);
}

#[test]
fn enemy_inside_and_far_from_the_player_gives_no_cue() {
    let c = Config::default();
    let mut w = World { player: Some(Player { position: at(100, 100) }), enemies: vec![enemy(400, 300, 600, 800)] };
    let cues = update_enemy_direction(&mut w, &c, &window());
    assert_eq!(w.enemies[0], enemy(400, 300, 600, 800));
    assert_eq!(cues, vec![false]);
}

#[test]
fn touching_the_player_cues_without_turning() {
    let c = Config::default();
    let mut w = World {
        player: Some(Player { position: at(400, 300) }),
        enemies: vec![enemy(440, 330, 600, 800), enemy(440, 348, 600, 800)],
    };
    let cues = update_enemy_direction(&mut w, &c, &window());
    assert_eq!(w.enemies[0], enemy(440, 330, 600, 800));
    assert_eq!(w.enemies[1], enemy(440, 348, 600, 800));
    // 40 and 30 pixels apart: 50 < 64. 40 and 48 pixels apart: about 62.5 < 64.
    assert_eq!(cues, vec![true, true]);
    let mut far = World { player: Some(Player { position: at(400, 300) }), enemies: vec![enemy(464, 300, 1, 1)] };
    assert_eq!(update_enemy_direction(&mut far, &c, &window()), vec![false]);
}

#[test]
fn spawned_player_and_camera_stand_at_the_centre() {
    assert_eq!(spawn_player(&window()).position, at(400, 300));
    assert_eq!(spawn_camera(&window()), at(400, 300));
    assert_eq!(spawn_camera(&Window { width: 801, height: 1 }), Position { x: 400_500_000, y: 500_000 });
}

#[test]
fn spawner_creates_the_configured_enemies_inside_the_window() {
    let c = Config::default();
    for _ in 0..20 {
        let enemies = spawn_enemies(&c, &window());
        assert_eq!(enemies.len(), NUMBER_OF_ENEMIES);
        for e in &enemies {
            assert!(32 * PX <= e.position.x && e.position.x < 768 * PX);
            assert!(32 * PX <= e.position.y && e.position.y < 568 * PX);
            assert!(e.direction.x >= 0 && e.direction.y >= 0);
            let len2 = e.direction.x * e.direction.x + e.direction.y * e.direction.y;
            assert!(990_000 < len2 && len2 < 1_010_000);
        }
    }
    let none = spawn_enemies(&Config { number_of_enemies: 0, ..c }, &window());
    assert!(none.is_empty());
}

#[test]
fn enemy_from_draws_is_exact() {
    let c = Config::default();
    let e = enemy_from_draws(&c, &window(), 5, 7, 3, 4);
    assert_eq!(e.position, Position { x: 32 * PX + 5, y: 32 * PX + 7 });
    assert_eq!(e.direction, Direction { x: 600, y: 800 });
    let d = enemy_from_draws(&c, &window(), 0, 0, 1, 1).direction;
    assert_eq!(d, Direction { x: 707, y: 707 });
    let f = enemy_from_draws(&c, &window(), 0, 0, 1000, 1).direction;
    assert_eq!(f, Direction { x: 1000, y: 1 });
}
