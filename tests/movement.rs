use movement::accelerate::{isqrt, normalize_horizontal, JUMP_TIME, JUMP_VELOCITY};
use movement::geometry::{Aabb, Vec3};
use movement::input::{Key, KeyEvent, PressedKeys};
use movement::movement::{Motion, Movement, Packet};
use movement::resolve::{resolve_conflict, Grounded, Resolution, SurfaceFriction};
use movement::world::{Block, BlockGrid};

const TICK: i64 = 16_667;

fn v(x: i64, y: i64, z: i64) -> Vec3 {
    Vec3::new(x, y, z)
}

fn cube(cx: i64, cy: i64, cz: i64, h: i64) -> Aabb {
    Aabb { center: v(cx, cy, cz), half_extents: v(h, h, h) }
}

fn surface(top: i64) -> SurfaceFriction {
    SurfaceFriction { top, bottom: 0, left: 0, right: 0, front: 0, back: 0 }
}

fn solid(top: i64) -> Block {
    Block {
        drag: v(0, 0, 0),
        surface: Some(surface(top)),
        collision: Some(cube(500_000, 500_000, 500_000, 500_000)),
    }
}

fn air() -> Block {
    Block { drag: v(0, 0, 0), surface: None, collision: None }
}

fn water() -> Block {
    Block { drag: v(500_000, 500_000, 500_000), surface: None, collision: Some(cube(500_000, 500_000, 500_000, 500_000)) }
}

/// Cells x and z in -1..=1, y in 0..=3; `floor` fills y = 0, `fill` the rest.
fn grid(floor: Option<Block>, fill: Option<Block>) -> BlockGrid {
    let mut cells = Vec::new();
    for _x in 0..3 {
        for y in 0..4 {
            for _z in 0..3 {
                cells.push(if y == 0 { floor } else { fill });
            }
        }
    }
    BlockGrid { min_x: -1, min_y: 0, min_z: -1, size_x: 3, size_y: 4, size_z: 3, cells }
}

fn standing() -> Movement {
    let mut m = Movement::new();
    m.motion.is_grounded = Grounded { x: false, y: true, z: false };
    m
}

fn forward() -> Vec3 {
    v(0, 0, -1_000_000)
}

#[test]
fn intersection_of_neighbouring_boxes() {
    let a = cube(0, 0, 0, 500_000);
    let b = cube(900_000, 0, 0, 500_000);
    assert_eq!(a.intersection(&b), Some(v(-100_000, 1_000_000, 1_000_000)));
}

#[test]
fn intersection_is_antisymmetric() {
    let a = cube(0, 0, 0, 500_000);
    let b = cube(300_000, -200_000, 100_000, 400_000);
    let ab = a.intersection(&b).unwrap();
    let ba = b.intersection(&a).unwrap();
    assert_eq!(ab, v(-ba.x, -ba.y, -ba.z));
    assert_eq!(ab, v(-600_000, 700_000, -800_000));
    let far = cube(2_000_000, 0, 0, 500_000);
    assert_eq!(a.intersection(&far), None);
    assert_eq!(far.intersection(&a), None);
}

#[test]
fn touching_boxes_do_not_intersect() {
    let a = cube(0, 0, 0, 500_000);
    let b = cube(1_000_000, 0, 0, 500_000);
    assert_eq!(a.intersection(&b), None);
}

#[test]
fn box_from_corners() {
    let b = Aabb::from_min_max(v(-300_000, 0, -300_000), v(300_000, 1_800_000, 300_000));
    assert_eq!(b.center, v(0, 900_000, 0));
    assert_eq!(b.half_extents, v(300_000, 900_000, 300_000));
    assert_eq!(b.min(), v(-300_000, 0, -300_000));
    assert_eq!(b.max(), v(300_000, 1_800_000, 300_000));
}

#[test]
fn pressed_keys_follow_events() {
    let mut k = PressedKeys::new();
    k.apply(KeyEvent { key: Key::KeyW, released: false });
    k.apply(KeyEvent { key: Key::KeyW, released: false });
    k.apply(KeyEvent { key: Key::Space, released: false });
    assert!(k.contains(Key::KeyW));
    assert_eq!(k.iterate().len(), 2);
    k.apply(KeyEvent { key: Key::KeyW, released: true });
    k.apply(KeyEvent { key: Key::KeyA, released: true });
    assert!(!k.contains(Key::KeyW));
    assert_eq!(k.iterate(), vec![Key::Space]);
}

#[test]
fn integer_square_roots() {
    assert_eq!(isqrt(0), 0);
    assert_eq!(isqrt(15), 3);
    assert_eq!(isqrt(16), 4);
    assert_eq!(isqrt(2_000_000_000_000), 1_414_213);
    assert_eq!(isqrt(2_000_000_000_000_000_000_000_000), 1_414_213_562_373);
}

#[test]
fn diagonal_input_is_normalized() {
    assert_eq!(normalize_horizontal(0, 0), (0, 0));
    assert_eq!(normalize_horizontal(1_000_000, 0), (1_000_000, 0));
    assert_eq!(normalize_horizontal(1_000_000, -1_000_000), (707_107, -707_107));
    assert_eq!(normalize_horizontal(1, 1), (707_107, 707_107));
    assert_eq!(normalize_horizontal(0, -3), (0, -1_000_000));
}

#[test]
fn normalized_directions_have_unit_length() {
    let inputs = [(1, 1), (1_000_000, -1_000_000), (3, 7), (-1_999_999, 5), (123_456, 654_321), (2, -1)];
    for (x, z) in inputs {
        let (a, b) = normalize_horizontal(x, z);
        let length = ((a as f64).powi(2) + (b as f64).powi(2)).sqrt();
        assert!((length - 1_000_000.0).abs() <= 1.0, "{x} {z} -> {a} {b}");
    }
}

#[test]
fn nearly_vertical_camera_still_gives_unit_push() {
    let mut keys = PressedKeys::new();
    keys.apply(KeyEvent { key: Key::KeyW, released: false });
    let mut m = Movement::new().motion;
    m.is_grounded.y = true;
    m.accelerate(&keys, v(1, -999_999, 1));
    assert_eq!(m.acceleration, v(70_710_700, -32_000_000, 70_710_700));
}

#[test]
fn zero_length_tick_only_accelerates() {
    let mut m = standing();
    m.motion.last_jump = JUMP_TIME + 1;
    let press = vec![KeyEvent { key: Key::Space, released: false }];
    let g = grid(Some(solid(0)), Some(air()));
    let start = v(500_000, 1_000_000, 500_000);
    let out = m.update(0, forward(), &press, start, &g, &vec![]).unwrap();
    assert_eq!(m.motion.velocity.y, JUMP_VELOCITY);
    assert_eq!(m.motion.last_jump, 0);
    assert_eq!(m.motion.delta_time, 0);
    assert_eq!(out.position, start);
}

#[test]
fn jump_fires_once_per_cooldown() {
    let mut keys = PressedKeys::new();
    keys.apply(KeyEvent { key: Key::Space, released: false });
    let mut m = Movement::new().motion;
    m.is_grounded.y = true;
    m.last_jump = JUMP_TIME + 10_000;
    m.accelerate(&keys, forward());
    assert_eq!(m.velocity.y, JUMP_VELOCITY);
    assert_eq!(m.velocity.y, 9_000_000);
    assert_eq!(m.last_jump, 0);
    assert_eq!(m.acceleration, v(0, -32_000_000, 0));

    m.velocity.y = 0;
    m.last_jump += TICK;
    m.accelerate(&keys, forward());
    assert_eq!(m.velocity.y, 0);
    assert_eq!(m.last_jump, TICK);
}

#[test]
fn jump_through_a_whole_tick() {
    let mut m = standing();
    m.motion.last_jump = JUMP_TIME + 10_000 - TICK;
    let press = vec![KeyEvent { key: Key::Space, released: false }];
    let g = grid(Some(solid(0)), Some(air()));
    let out = m.update(TICK, forward(), &press, v(0, 1_000_000, 0), &g, &vec![]).unwrap();
    assert_eq!(m.motion.last_jump, 0);
    assert_eq!(m.motion.velocity.y, 9_000_000 - 533_344);
    assert!(!m.motion.is_grounded.y);
    assert!(out.position.y > 1_000_000);

    let out2 = m.update(TICK, forward(), &vec![], out.position, &g, &vec![]).unwrap();
    assert_eq!(m.motion.last_jump, TICK);
    assert!(m.motion.velocity.y < 9_000_000 - 533_344);
    assert!(out2.position.y > out.position.y);
}

#[test]
fn acceleration_by_state() {
    let mut keys = PressedKeys::new();
    keys.apply(KeyEvent { key: Key::KeyW, released: false });
    let mut m: Motion = Movement::new().motion;
    m.is_grounded.y = true;
    m.accelerate(&keys, forward());
    assert_eq!(m.acceleration, v(0, -32_000_000, -100_000_000));

    m.is_grounded.y = false;
    m.accelerate(&keys, forward());
    assert_eq!(m.acceleration, v(0, -32_000_000, -20_000_000));

    m.velocity.x = 3_000_000;
    m.accelerate(&keys, forward());
    assert_eq!(m.acceleration, v(0, -32_000_000, -50_000_000));

    m.is_swimming = true;
    m.accelerate(&keys, forward());
    assert_eq!(m.acceleration, v(0, -10_000_000, -40_000_000));
    keys.apply(KeyEvent { key: Key::Space, released: false });
    m.accelerate(&keys, forward());
    assert_eq!(m.acceleration, v(0, 20_000_000, -40_000_000));
    keys.apply(KeyEvent { key: Key::Shift, released: false });
    m.accelerate(&keys, forward());
    assert_eq!(m.acceleration, v(0, -30_000_000, -40_000_000));
}

#[test]
fn friction_decay_to_the_fourth_power() {
    let mut m = Movement::new();
    m.motion.velocity = v(10_000_000, 0, 0);
    let friction = 0.5f64;
    let seconds = 1.0f64;
    let factor = (1.0 - friction).powf(4.0).powf(seconds);
    let decay_x = (factor * 1_000_000.0).round() as i64;
    assert_eq!(decay_x, 62_500);
    m.apply_friction(v(decay_x, 1_000_000, 1_000_000), false);
    assert_eq!(m.motion.velocity.x, 625_000);
}

#[test]
fn leaving_water_gives_a_boost() {
    let mut left = Movement::new();
    left.motion.velocity = v(0, -2_000_000, 0);
    let mut stayed = Movement::new();
    stayed.motion.velocity = v(0, -2_000_000, 0);
    stayed.motion.is_swimming = true;
    let decay = v(500_000, 500_000, 500_000);
    left.apply_friction(decay, true);
    stayed.apply_friction(decay, true);
    assert_eq!(stayed.motion.velocity.y, -1_000_000);
    assert_eq!(left.motion.velocity.y, stayed.motion.velocity.y + 1_500_000);
}

#[test]
fn standing_on_a_floor_stays_put() {
    let mut m = standing();
    let g = grid(Some(solid(0)), Some(air()));
    let start = v(500_000, 1_000_000, 500_000);
    let out = m.update(TICK, forward(), &vec![], start, &g, &vec![]).unwrap();
    assert!(m.motion.is_grounded.y);
    assert_eq!(m.motion.velocity.y, 0);
    assert_eq!(out.position.x, 500_000);
    assert_eq!(out.position.z, 500_000);
    assert!((out.position.y - 1_000_000).abs() <= 100);
    assert_eq!(out.position.y, 1_000_088);
    assert_eq!(out.friction, v(0, 0, 0));
    m.apply_friction(v(1_000_000, 1_000_000, 1_000_000), out.was_swimming);
    assert_eq!(m.motion.velocity, v(0, 0, 0));
}

#[test]
fn missing_block_drops_the_tick() {
    let mut m = standing();
    m.motion.velocity = v(1_000, 0, 0);
    let g = grid(None, Some(air()));
    let press = vec![KeyEvent { key: Key::KeyW, released: false }];
    let before = m.motion;
    let r = m.update(TICK, forward(), &press, v(500_000, 1_000_000, 500_000), &g, &vec![]);
    assert!(r.is_err());
    assert_eq!(m.motion, before);
    assert!(!m.pressed_keys.contains(Key::KeyW));
}

#[test]
fn swimming_is_detected_in_water() {
    let mut m = Movement::new();
    let g = grid(Some(water()), Some(water()));
    let out = m.update(TICK, forward(), &vec![], v(500_000, 1_000_000, 500_000), &g, &vec![]).unwrap();
    assert!(m.motion.is_swimming);
    assert!(!out.was_swimming);
    assert_eq!(out.friction, v(500_000, 500_000, 500_000));
}

#[test]
fn landing_on_a_followed_model() {
    let mut m = Movement::new();
    m.handle_packet(Packet::Models(vec![7]));
    m.motion.velocity = v(0, -1_000_000, 0);
    let g = grid(Some(air()), Some(air()));
    let platform = cube(500_000, 500_000, 500_000, 500_000);
    let out = m.update(TICK, forward(), &vec![], v(500_000, 1_000_000, 500_000), &g, &vec![(7, platform)]).unwrap();
    assert!(m.motion.is_grounded.y);
    assert_eq!(m.motion.velocity.y, 0);
    assert_eq!(out.friction, v(990_000, 990_000, 990_000));

    let mut other = Movement::new();
    other.motion.velocity = v(0, -1_000_000, 0);
    other.update(TICK, forward(), &vec![], v(500_000, 1_000_000, 500_000), &g, &vec![(7, platform)]).unwrap();
    assert!(!other.motion.is_grounded.y);
}

#[test]
fn velocity_packets_add_up() {
    let mut m = Movement::new();
    m.handle_packet(Packet::Velocity(v(1_000_000, 2_000_000, -3_000_000)));
    m.handle_packet(Packet::Velocity(v(1_000_000, 0, 0)));
    assert_eq!(m.motion.velocity, v(2_000_000, 2_000_000, -3_000_000));
    m.handle_packet(Packet::Models(vec![1, 2]));
    m.handle_packet(Packet::Models(vec![3]));
    assert_eq!(m.models, vec![3]);
}

fn resolution() -> Resolution {
    Resolution {
        move_back: v(0, 0, 0),
        friction: v(0, 0, 0),
        grounded: Grounded { x: false, y: false, z: false },
        velocity: v(0, -1_000_000, 0),
        swimming: false,
    }
}

#[test]
fn resolution_picks_the_vertical_axis() {
    let mut r = resolution();
    resolve_conflict(&mut r, &surface(600_000), v(0, -1_000_000, 0), v(800_000, 10_000, 800_000), TICK);
    assert_eq!(r.move_back, v(0, 10_100, 0));
    assert!(r.grounded.y);
    assert_eq!(r.velocity.y, 0);
    assert_eq!(r.friction, v(600_000, 600_000, 600_000));
}

#[test]
fn resolution_picks_the_latest_axis() {
    let mut r = resolution();
    r.velocity = v(1_000_000, 0, 1_000_000);
    let s = SurfaceFriction { top: 0, bottom: 0, left: 100_000, right: 0, front: 0, back: 300_000 };
    resolve_conflict(&mut r, &s, v(1_000_000, 0, 1_000_000), v(-5_000, 500_000, -10_000), TICK);
    assert_eq!(r.move_back, v(0, 0, -10_100));
    assert!(r.grounded.z && !r.grounded.x);
    assert_eq!(r.velocity, v(1_000_000, 0, 0));
    assert_eq!(r.friction, v(300_000, 300_000, 300_000));
}

#[test]
fn resolution_falls_back_to_the_quickest_axis() {
    let mut r = resolution();
    resolve_conflict(&mut r, &surface(600_000), v(0, -1_000_000, 0), v(800_000, 20_000, 800_000), TICK);
    assert_eq!(r.move_back, v(0, 20_200, 0));
    assert!(!r.grounded.y);
    assert_eq!(r.velocity.y, -1_000_000);
    assert_eq!(r.friction, v(0, 0, 0));

    let mut r = resolution();
    resolve_conflict(&mut r, &surface(600_000), v(0, -1_000_000, 0), v(800_000, 40_000, 800_000), TICK);
    assert_eq!(r.move_back, v(0, 0, 0));
}
