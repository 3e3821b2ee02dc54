use vstd::prelude::*;

use crate::accelerate::{
    acceleration_of, camera_wf, fixed_length, jump_fires, normalize_horizontal, unit_component,
    swim_vertical, wish_x, wish_z, GRAVITY, JUMP_TIME, JUMP_VELOCITY,
};
use crate::geometry::{abs, Vec3, SCALE};
use crate::input::{Key, KeyEvent, PressedKeys};
use crate::physics::{models_wf, position_wf, run_pass, travel, travel_exec, pass_spec};
use crate::resolve::{Grounded, Resolution, MAX_TICK};
use crate::geometry::Aabb;
use crate::world::BlockGrid;

verus! {

/// Largest speed on any axis, in micro-blocks per second; faster motion is
/// held at this speed.
pub const VELOCITY_LIMIT: i64 = 0x100_0000_0000;

pub open spec fn clamp_velocity(v: int) -> int {
    if v > VELOCITY_LIMIT {
        VELOCITY_LIMIT as int
    } else if v < -VELOCITY_LIMIT {
        -VELOCITY_LIMIT
    } else {
        v
    }
}

pub open spec fn velocity_wf(v: Vec3) -> bool {
    abs(v.x as int) <= VELOCITY_LIMIT && abs(v.y as int) <= VELOCITY_LIMIT && abs(v.z as int)
        <= VELOCITY_LIMIT
}

/// The numeric part of the movement state.
#[derive(Clone, Copy, Debug, PartialEq, Eq, Structural)]
pub struct Motion {
    pub acceleration: Vec3,
    pub velocity: Vec3,
    pub is_swimming: bool,
    pub is_grounded: Grounded,
    /// Microseconds since the last jump.
    pub last_jump: i64,
    /// Length of the current tick, in microseconds.
    pub delta_time: i64,
}

impl Motion {
    pub open spec fn wf(self) -> bool {
        &&& velocity_wf(self.velocity)
        &&& abs(self.acceleration.x as int) <= 200 * SCALE
        &&& abs(self.acceleration.y as int) <= 200 * SCALE
        &&& abs(self.acceleration.z as int) <= 200 * SCALE
        &&& self.last_jump >= 0
        &&& 0 <= self.delta_time <= MAX_TICK
    }
}

/// The keys held after a sequence of press and release events.
pub open spec fn keys_after(keys: Set<Key>, events: Seq<KeyEvent>) -> Set<Key>
    decreases events.len(),
{
    if events.len() == 0 {
        keys
    } else {
        let before = keys_after(keys, events.drop_last());
        let e = events.last();
        if e.released {
            before.remove(e.key)
        } else {
            before.insert(e.key)
        }
    }
}

/// The motion after the acceleration step of a tick, with `keys` held and the
/// camera facing `f`.
pub open spec fn accelerated(m: Motion, keys: Set<Key>, f: Vec3) -> Motion {
    let jumped = jump_fires(keys, m.is_swimming, m.is_grounded.y, m.last_jump as int);
    let v = if jumped {
        Vec3 { y: JUMP_VELOCITY, ..m.velocity }
    } else {
        m.velocity
    };
    let wx = wish_x(keys, f);
    let wz = wish_z(keys, f);
    let hx = if wx == 0 && wz == 0 { 0 } else { unit_component(wx, fixed_length(wx, wz)) };
    let hz = if wx == 0 && wz == 0 { 0 } else { unit_component(wz, fixed_length(wx, wz)) };
    let a = acceleration_of(hx, hz, keys, m.is_swimming, m.is_grounded.y, v);
    Motion {
        acceleration: Vec3 { x: a.0 as i64, y: a.1 as i64, z: a.2 as i64 },
        velocity: v,
        last_jump: if jumped { 0 } else { m.last_jump },
        ..m
    }
}

fn times_sign(sign: i64, v: i64) -> (r: i64)
    requires
        sign == -1 || sign == 0 || sign == 1,
        abs(v as int) <= SCALE,
    ensures
        r == sign * v,
        abs(r as int) <= SCALE,
{
    if sign == 1 {
        v
    } else if sign == -1 {
        -v
    } else {
        0
    }
}

/// The factor that the horizontal direction is scaled by in the acceleration
/// step, chosen by the state after any jump.
pub open spec fn horizontal_factor(m: Motion, keys: Set<Key>) -> int {
    let jumped = jump_fires(keys, m.is_swimming, m.is_grounded.y, m.last_jump as int);
    let v = if jumped {
        Vec3 { y: JUMP_VELOCITY, ..m.velocity }
    } else {
        m.velocity
    };
    if m.is_swimming {
        40
    } else if m.is_grounded.y {
        100
    } else if crate::accelerate::fast_in_air(v) {
        50
    } else {
        20
    }
}

/// The state of one actor's movement.
pub struct Movement {
    pub motion: Motion,
    pub pressed_keys: PressedKeys,
    /// The models that the actor collides with.
    pub models: Vec<u32>,
}

impl Movement {
    pub open spec fn wf(&self) -> bool {
        self.motion.wf() && self.pressed_keys.wf()
    }

    /// A resting actor: no motion, not grounded, not swimming, no keys held.
    pub fn new() -> (r: Movement)
        ensures
            r.wf(),
            r.motion.velocity == Vec3::zero_spec(),
            r.motion.acceleration == Vec3::zero_spec(),
            !r.motion.is_swimming,
            r.motion.is_grounded == (Grounded { x: false, y: false, z: false }),
            r.motion.last_jump == 0,
            r.motion.delta_time == 0,
            r.pressed_keys@ == Set::<Key>::empty(),
            r.models@ == Seq::<u32>::empty(),
    {
        Movement {
            motion: Motion {
                acceleration: Vec3::zero(),
                velocity: Vec3::zero(),
                is_swimming: false,
                is_grounded: Grounded { x: false, y: false, z: false },
                last_jump: 0,
                delta_time: 0,
            },
            pressed_keys: PressedKeys::new(),
            models: Vec::new(),
        }
    }

}

} // verus!

verus! {

impl Motion {
    /// The acceleration step: starts a jump where one fires, and sets the
    /// acceleration for this tick from the held keys, the camera's forward
    /// direction and the current state.
    pub fn accelerate(&mut self, keys: &PressedKeys, camera_forward: Vec3)
        requires
            old(self).wf(),
            camera_wf(camera_forward),
        ensures
            final(self).wf(),
            *final(self) == accelerated(*old(self), keys@, camera_forward),
            wish_x(keys@, camera_forward) == 0 && wish_z(keys@, camera_forward) == 0 ==> final(self).acceleration.x == 0
                && final(self).acceleration.z == 0,
            !(wish_x(keys@, camera_forward) == 0 && wish_z(keys@, camera_forward) == 0) ==> {
                let k = horizontal_factor(*old(self), keys@);
                let a = final(self).acceleration;
                &&& k * k * ((SCALE - 1) * (SCALE - 1)) <= a.x * a.x + a.z * a.z
                &&& a.x * a.x + a.z * a.z <= k * k * ((SCALE + 1) * (SCALE + 1))
            },
    {
        let ghost held_keys = keys@;
        let w = keys.contains(Key::KeyW);
        let s = keys.contains(Key::KeyS);
        let a = keys.contains(Key::KeyA);
        let d = keys.contains(Key::KeyD);
        let space = keys.contains(Key::Space);
        let shift = keys.contains(Key::Shift);
        let f = camera_forward;

        let fb: i64 = if w && !s { 1 } else if s && !w { -1 } else { 0 };
        let lr: i64 = if d && !a { 1 } else if a && !d { -1 } else { 0 };
        let wx = times_sign(fb, f.x) - times_sign(lr, f.z);
        let wz = times_sign(fb, f.z) + times_sign(lr, f.x);
        let (hx, hz) = normalize_horizontal(wx, wz);

        let m = *self;
        let jumped = space && !m.is_swimming && m.is_grounded.y && m.last_jump > JUMP_TIME;
        if jumped {
            self.last_jump = 0;
            self.velocity.y = JUMP_VELOCITY;
        }
        let v = self.velocity;

        let acceleration = if m.is_swimming {
            let vy: i64 = if shift { -30 * SCALE } else if space { 20 * SCALE } else { 0 };
            Vec3 { x: 40 * hx, y: if vy == 0 { -10 * SCALE } else { vy }, z: 40 * hz }
        } else {
            let mult: i64 = if m.is_grounded.y {
                100
            } else if v.x > 2 * SCALE || v.x < -2 * SCALE || v.z > 2 * SCALE || v.z < -2 * SCALE
                || v.y < -10 * SCALE {
                50
            } else {
                20
            };
            Vec3 { x: mult * hx, y: -GRAVITY, z: mult * hz }
        };
        self.acceleration = acceleration;
        proof {
            assert(wx == wish_x(held_keys, f));
            assert(wz == wish_z(held_keys, f));
            assert(swim_vertical(held_keys) == (if shift { -30 * SCALE } else if space { 20 * SCALE } else { 0 }));
            let k = horizontal_factor(m, held_keys);
            assert(acceleration.x == k * hx && acceleration.z == k * hz);
            if !(wx == 0 && wz == 0) {
                assert(k * k * ((SCALE - 1) * (SCALE - 1)) <= (k * hx) * (k * hx) + (k * hz) * (k * hz)
                    <= k * k * ((SCALE + 1) * (SCALE + 1))) by (nonlinear_arith)
                    requires
                        (SCALE - 1) * (SCALE - 1) <= hx * hx + hz * hz <= (SCALE + 1) * (SCALE + 1);
            }
        }
    }
}

impl PressedKeys {
    /// Applies the key events of a tick in order.
    pub fn apply_all(&mut self, events: &Vec<KeyEvent>)
        requires
            old(self).wf(),
        ensures
            final(self).wf(),
            final(self)@ == keys_after(old(self)@, events@),
    {
        let mut i: usize = 0;
        while i < events.len()
            invariant
                i <= events@.len(),
                self.wf(),
                self@ == keys_after(old(self)@, events@.take(i as int)),
            decreases events@.len() - i,
        {
            self.apply(events[i]);
            assert(events@.take(i + 1).drop_last() == events@.take(i as int));
            i += 1;
        }
        assert(events@.take(i as int) == events@);
    }
}

/// What a tick hands back to the host: where the actor now stands, the
/// friction to decay its velocity with, and whether it swam before the tick.
#[derive(Clone, Copy, Debug, PartialEq, Eq, Structural)]
pub struct TickOutcome {
    pub position: Vec3,
    pub friction: Vec3,
    pub was_swimming: bool,
}

/// A block that the actor would touch is not loaded.
#[derive(Clone, Copy, Debug, PartialEq, Eq, Structural)]
pub struct MissingBlock;

pub open spec fn saturating_time(a: int, b: int) -> int {
    if a + b > i64::MAX {
        i64::MAX as int
    } else {
        a + b
    }
}

/// The contact flags at the start of collision testing: an axis stays
/// grounded only while the actor does not move along it.
pub open spec fn kept_grounded(g: Grounded, v: Vec3) -> Grounded {
    Grounded { x: g.x && v.x == 0, y: g.y && v.y == 0, z: g.z && v.z == 0 }
}

/// The velocity after integrating the acceleration over the tick.
pub open spec fn integrated(m: Motion) -> Vec3 {
    Vec3 {
        x: clamp_velocity(m.velocity.x + travel(m.acceleration.x as int, m.delta_time as int)) as i64,
        y: clamp_velocity(m.velocity.y + travel(m.acceleration.y as int, m.delta_time as int)) as i64,
        z: clamp_velocity(m.velocity.z + travel(m.acceleration.z as int, m.delta_time as int)) as i64,
    }
}

pub open spec fn start_resolution(m: Motion) -> Resolution {
    Resolution {
        move_back: Vec3::zero_spec(),
        friction: Vec3::zero_spec(),
        grounded: kept_grounded(m.is_grounded, m.velocity),
        velocity: integrated(m),
        swimming: false,
    }
}

/// The physics step: integrate, resolve a vertical pass and then a
/// horizontal one, and move the actor. `None` where a block is not known.
pub open spec fn physics_spec(
    m: Motion,
    followed: Seq<u32>,
    g: &BlockGrid,
    models: Seq<(u32, Aabb)>,
    p: Vec3,
) -> Option<(Motion, TickOutcome)> {
    let v = integrated(m);
    let dt = m.delta_time as int;
    match pass_spec(start_resolution(m), g, followed, models, p, Vec3 { x: 0, y: v.y, z: 0 }, dt) {
        None => None,
        Some(r1) => match pass_spec(r1, g, followed, models, p, Vec3 { x: v.x, y: 0, z: v.z }, dt) {
            None => None,
            Some(r2) => Some(
                (
                    Motion {
                        velocity: r2.velocity,
                        is_grounded: r2.grounded,
                        is_swimming: r2.swimming,
                        ..m
                    },
                    TickOutcome {
                        position: Vec3 {
                            x: (p.x + travel(v.x as int, dt) + r2.move_back.x) as i64,
                            y: (p.y + travel(v.y as int, dt) + r2.move_back.y) as i64,
                            z: (p.z + travel(v.z as int, dt) + r2.move_back.z) as i64,
                        },
                        friction: r2.friction,
                        was_swimming: m.is_swimming,
                    },
                ),
            ),
        },
    }
}

/// A whole tick of `dt` microseconds: the key events, the cooldown, the
/// acceleration step and the physics step.
pub open spec fn tick_spec(
    m: Motion,
    keys: Set<Key>,
    events: Seq<KeyEvent>,
    dt: int,
    f: Vec3,
    followed: Seq<u32>,
    g: &BlockGrid,
    models: Seq<(u32, Aabb)>,
    p: Vec3,
) -> Option<(Motion, TickOutcome)> {
    let m1 = Motion { delta_time: dt as i64, last_jump: saturating_time(m.last_jump as int, dt) as i64, ..m };
    physics_spec(accelerated(m1, keys_after(keys, events), f), followed, g, models, p)
}

/// The velocity after friction: each component scaled by its decay factor
/// and rounded towards zero.
pub open spec fn decayed(v: int, d: int) -> int {
    if v >= 0 {
        v * d / SCALE as int
    } else {
        -((-v) * d / SCALE as int)
    }
}

fn velocity_step(v: i64, a: i64, dt: i64) -> (r: i64)
    requires
        abs(v as int) <= VELOCITY_LIMIT,
        abs(a as int) <= 200 * SCALE,
        0 <= dt <= MAX_TICK,
    ensures
        r == clamp_velocity(v + travel(a as int, dt as int)),
{
    let aa: i128 = if a < 0 { -(a as i128) } else { a as i128 };
    assert(0 <= aa * dt <= 200_000_000 * 0x100_0000) by (nonlinear_arith)
        requires 0 <= aa <= 200_000_000, 0 <= dt <= 0x100_0000;
    let q: i128 = aa * (dt as i128) / (SCALE as i128);
    assert(q <= 200_000_000 * 0x100_0000) by (nonlinear_arith)
        requires q == aa * dt / 1_000_000, 0 <= aa * dt <= 200_000_000 * 0x100_0000;
    let t: i128 = if a < 0 { -q } else { q };
    let s: i128 = (v as i128) + t;
    if s > VELOCITY_LIMIT as i128 {
        VELOCITY_LIMIT
    } else if s < -(VELOCITY_LIMIT as i128) {
        -VELOCITY_LIMIT
    } else {
        s as i64
    }
}

fn physics(m: &mut Motion, followed: &Vec<u32>, g: &BlockGrid, models: &Vec<(u32, Aabb)>, p: Vec3) -> (r: Result<TickOutcome, MissingBlock>)
    requires
        old(m).wf(),
        g.wf(),
        models_wf(models@),
        position_wf(p),
    ensures
        r is Ok <==> physics_spec(*old(m), followed@, g, models@, p) is Some,
        r matches Ok(o) ==> physics_spec(*old(m), followed@, g, models@, p) == Some((*final(m), o)),
        final(m).wf(),
{
    let dt = m.delta_time;
    let v = Vec3 {
        x: velocity_step(m.velocity.x, m.acceleration.x, dt),
        y: velocity_step(m.velocity.y, m.acceleration.y, dt),
        z: velocity_step(m.velocity.z, m.acceleration.z, dt),
    };
    let mut r = Resolution {
        move_back: Vec3::zero(),
        friction: Vec3::zero(),
        grounded: Grounded {
            x: m.is_grounded.x && m.velocity.x == 0,
            y: m.is_grounded.y && m.velocity.y == 0,
            z: m.is_grounded.z && m.velocity.z == 0,
        },
        velocity: v,
        swimming: false,
    };
    assert(r == start_resolution(*m));
    if !run_pass(&mut r, g, followed, models, p, Vec3 { x: 0, y: v.y, z: 0 }, dt) {
        return Err(MissingBlock);
    }
    if !run_pass(&mut r, g, followed, models, p, Vec3 { x: v.x, y: 0, z: v.z }, dt) {
        return Err(MissingBlock);
    }
    let tx = travel_exec(v.x, dt);
    let ty = travel_exec(v.y, dt);
    let tz = travel_exec(v.z, dt);
    let outcome = TickOutcome {
        position: Vec3 { x: p.x + tx + r.move_back.x, y: p.y + ty + r.move_back.y, z: p.z + tz + r.move_back.z },
        friction: r.friction,
        was_swimming: m.is_swimming,
    };
    m.velocity = r.velocity;
    m.is_grounded = r.grounded;
    m.is_swimming = r.swimming;
    Ok(outcome)
}

impl Movement {
    /// One tick of `delta_time` microseconds, with the camera facing
    /// `camera_forward`, the actor standing at `position`, the loaded blocks
    /// around it and the models near it. Where a block that the actor would
    /// touch is not known, the tick is dropped and the state stays as it was.
    pub fn update(
        &mut self,
        delta_time: i64,
        camera_forward: Vec3,
        events: &Vec<KeyEvent>,
        position: Vec3,
        grid: &BlockGrid,
        nearby_models: &Vec<(u32, Aabb)>,
    ) -> (r: Result<TickOutcome, MissingBlock>)
        requires
            old(self).wf(),
            0 <= delta_time <= MAX_TICK,
            camera_wf(camera_forward),
            position_wf(position),
            grid.wf(),
            models_wf(nearby_models@),
        ensures
            final(self).wf(),
            final(self).models == old(self).models,
            r is Ok <==> tick_spec(old(self).motion, old(self).pressed_keys@, events@, delta_time as int,
                camera_forward, old(self).models@, grid, nearby_models@, position) is Some,
            r matches Ok(o) ==> tick_spec(old(self).motion, old(self).pressed_keys@, events@, delta_time as int,
                camera_forward, old(self).models@, grid, nearby_models@, position) == Some((final(self).motion, o))
                && final(self).pressed_keys@ == keys_after(old(self).pressed_keys@, events@),
            r is Err ==> final(self).motion == old(self).motion && final(self).pressed_keys@ == old(self).pressed_keys@,
    {
        let mut keys = self.pressed_keys.duplicate();
        keys.apply_all(events);
        let mut m = self.motion;
        m.delta_time = delta_time;
        m.last_jump = if m.last_jump > i64::MAX - delta_time { i64::MAX } else { m.last_jump + delta_time };
        m.accelerate(&keys, camera_forward);
        let r = physics(&mut m, &self.models, grid, nearby_models, position);
        if r.is_ok() {
            self.motion = m;
            self.pressed_keys = keys;
        }
        r
    }

    /// Ends a tick: scales each velocity component by its decay factor (in
    /// `0..=SCALE`), then gives a small upward push where the actor has just
    /// left the water. The caller computes the factor of each axis from the
    /// friction `f` that the tick returned (`TickOutcome::friction`) and the
    /// tick's length `dt` in seconds, as `(1 - f)^(4 * dt)` in fixed point.
    pub fn apply_friction(&mut self, decay: Vec3, was_swimming: bool)
        requires
            old(self).wf(),
            0 <= decay.x <= SCALE && 0 <= decay.y <= SCALE && 0 <= decay.z <= SCALE,
        ensures
            final(self).wf(),
            final(self).motion.velocity.x == decayed(old(self).motion.velocity.x as int, decay.x as int),
            final(self).motion.velocity.z == decayed(old(self).motion.velocity.z as int, decay.z as int),
            final(self).motion.velocity.y == finished_velocity_y(old(self).motion.velocity.y as int, decay.y as int,
                was_swimming, old(self).motion.is_swimming),
            final(self).motion == (Motion { velocity: final(self).motion.velocity, ..old(self).motion }),
            final(self).pressed_keys == old(self).pressed_keys,
            final(self).models == old(self).models,
    {
        let v = self.motion.velocity;
        let x = decay_component(v.x, decay.x);
        let y = decay_component(v.y, decay.y);
        let z = decay_component(v.z, decay.z);
        let y = if was_swimming && !self.motion.is_swimming {
            if y + 1_500_000 > VELOCITY_LIMIT { VELOCITY_LIMIT } else { y + 1_500_000 }
        } else {
            y
        };
        self.motion.velocity = Vec3 { x, y, z };
    }
}

/// The vertical velocity at the end of a tick: decayed, plus an upward push
/// of 1.5 blocks per second where the actor has just left the water.
pub open spec fn finished_velocity_y(vy: int, d: int, was_swimming: bool, is_swimming: bool) -> int {
    if was_swimming && !is_swimming {
        clamp_velocity(decayed(vy, d) + 1_500_000)
    } else {
        decayed(vy, d)
    }
}

/// What the server sends to the movement of an actor.
#[derive(Clone, Debug)]
pub enum Packet {
    /// A change to the actor's velocity.
    Velocity(Vec3),
    /// The models that the actor should collide with.
    Models(Vec<u32>),
}

impl Movement {
    /// Applies a packet: a velocity is added (held within the speed limit),
    /// a list of models replaces the one followed.
    pub fn handle_packet(&mut self, packet: Packet)
        requires
            old(self).wf(),
        ensures
            final(self).wf(),
            final(self).pressed_keys == old(self).pressed_keys,
            match packet {
                Packet::Velocity(d) => {
                    &&& final(self).motion == (Motion {
                        velocity: Vec3 {
                            x: clamp_velocity(old(self).motion.velocity.x + d.x) as i64,
                            y: clamp_velocity(old(self).motion.velocity.y + d.y) as i64,
                            z: clamp_velocity(old(self).motion.velocity.z + d.z) as i64,
                        },
                        ..old(self).motion
                    })
                    &&& final(self).models@ == old(self).models@
                },
                Packet::Models(ids) => {
                    &&& final(self).motion == old(self).motion
                    &&& final(self).models@ == ids@
                },
            },
    {
        match packet {
            Packet::Velocity(d) => {
                let v = self.motion.velocity;
                self.motion.velocity = Vec3 {
                    x: add_clamped(v.x, d.x),
                    y: add_clamped(v.y, d.y),
                    z: add_clamped(v.z, d.z),
                };
            },
            Packet::Models(ids) => {
                self.models = ids;
            },
        }
    }
}

fn add_clamped(v: i64, d: i64) -> (r: i64)
    ensures
        r == clamp_velocity(v + d),
{
    let s: i128 = (v as i128) + (d as i128);
    if s > VELOCITY_LIMIT as i128 {
        VELOCITY_LIMIT
    } else if s < -(VELOCITY_LIMIT as i128) {
        -VELOCITY_LIMIT
    } else {
        s as i64
    }
}

fn decay_component(v: i64, d: i64) -> (r: i64)
    requires
        abs(v as int) <= VELOCITY_LIMIT,
        0 <= d <= SCALE,
    ensures
        r == decayed(v as int, d as int),
        abs(r as int) <= VELOCITY_LIMIT,
{
    let a: i128 = if v < 0 { -(v as i128) } else { v as i128 };
    assert(0 <= a * d <= VELOCITY_LIMIT * SCALE) by (nonlinear_arith)
        requires 0 <= a <= VELOCITY_LIMIT, 0 <= d <= SCALE;
    let q = a * (d as i128) / (SCALE as i128);
    assert(q <= a) by (nonlinear_arith)
        requires q == a * d / 1_000_000, 0 <= d <= 1_000_000, a >= 0;
    if v < 0 {
        -(q as i64)
    } else {
        q as i64
    }
}

} // verus!
