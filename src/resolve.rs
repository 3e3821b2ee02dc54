use vstd::prelude::*;

use crate::geometry::{abs, in_limit, Vec3, COORD_LIMIT, SCALE};

verus! {

/// Longest tick, in microseconds, that the engine accepts.
pub const MAX_TICK: i64 = 0x100_0000;

/// Friction of each face of a solid volume, each in `0..=SCALE`.
#[derive(Clone, Copy, Debug, PartialEq, Eq, Structural)]
pub struct SurfaceFriction {
    pub top: i64,
    pub bottom: i64,
    pub left: i64,
    pub right: i64,
    pub front: i64,
    pub back: i64,
}

pub open spec fn unit_factor(v: int) -> bool {
    0 <= v <= SCALE
}

impl SurfaceFriction {
    pub open spec fn wf(self) -> bool {
        &&& unit_factor(self.top as int)
        &&& unit_factor(self.bottom as int)
        &&& unit_factor(self.left as int)
        &&& unit_factor(self.right as int)
        &&& unit_factor(self.front as int)
        &&& unit_factor(self.back as int)
    }
}

/// Per-axis contact flags.
#[derive(Clone, Copy, Debug, PartialEq, Eq, Structural)]
pub struct Grounded {
    pub x: bool,
    pub y: bool,
    pub z: bool,
}

/// What resolving a pass accumulates: the corrective displacement, the
/// friction to apply afterwards, and the actor's contact flags and velocity.
#[derive(Clone, Copy, Debug, PartialEq, Eq, Structural)]
pub struct Resolution {
    pub move_back: Vec3,
    pub friction: Vec3,
    pub grounded: Grounded,
    pub velocity: Vec3,
    /// Whether a volume touched so far drags enough to swim in.
    pub swimming: bool,
}

pub open spec fn friction_wf(f: Vec3) -> bool {
    unit_factor(f.x as int) && unit_factor(f.y as int) && unit_factor(f.z as int)
}

impl Resolution {
    pub open spec fn wf(self) -> bool {
        self.move_back.bounded() && friction_wf(self.friction) && self.velocity.bounded()
    }
}

/// Limits a value to `-COORD_LIMIT..=COORD_LIMIT`.
pub open spec fn clamp(v: int) -> int {
    if v > COORD_LIMIT {
        COORD_LIMIT as int
    } else if v < -COORD_LIMIT {
        -COORD_LIMIT
    } else {
        v
    }
}

/// An overlap with one percent added, away from zero, rounded towards zero.
pub open spec fn with_margin(o: int) -> int {
    if o >= 0 {
        o + o / 100
    } else {
        o - (-o) / 100
    }
}

/// The time to undo an overlap `o` at velocity `v` is `o / -v` seconds; as a
/// fraction it is `time_num / time_den` with a positive denominator.
pub open spec fn time_num(o: int, v: int) -> int {
    if v < 0 {
        o
    } else {
        -o
    }
}

pub open spec fn time_den(v: int) -> int {
    abs(v)
}

/// The time to undo overlap `o` lies strictly between zero and the tick
/// `dt` (in microseconds) stretched by `percent`.
pub open spec fn time_in_window(o: int, v: int, dt: int, percent: int) -> bool {
    v != 0 && time_num(o, v) > 0 && 100 * time_num(o, v) * SCALE < percent * dt * time_den(v)
}

/// The time of `(o1, v1)` is at least that of `(o2, v2)`.
pub open spec fn time_ge(o1: int, v1: int, o2: int, v2: int) -> bool {
    time_num(o1, v1) * time_den(v2) >= time_num(o2, v2) * time_den(v1)
}

/// The axis along which a collision is resolved.
#[derive(Clone, Copy, Debug, PartialEq, Eq, Structural)]
pub enum Axis {
    X,
    Y,
    Z,
}

/// Among the axes whose time lies in the window of 101 percent of the tick,
/// the one with the largest time; ties go to y, then x, then z.
pub open spec fn chosen_axis(o: Vec3, v: Vec3, dt: int) -> Option<Axis> {
    let vx = time_in_window(o.x as int, v.x as int, dt, 101);
    let vy = time_in_window(o.y as int, v.y as int, dt, 101);
    let vz = time_in_window(o.z as int, v.z as int, dt, 101);
    if vy && (vx ==> time_ge(o.y as int, v.y as int, o.x as int, v.x as int)) && (vz
        ==> time_ge(o.y as int, v.y as int, o.z as int, v.z as int)) {
        Some(Axis::Y)
    } else if vx && (vy ==> time_ge(o.x as int, v.x as int, o.y as int, v.y as int)) && (vz
        ==> time_ge(o.x as int, v.x as int, o.z as int, v.z as int)) {
        Some(Axis::X)
    } else if vz {
        Some(Axis::Z)
    } else {
        None
    }
}

/// In the fallback window of twice the tick, whether an axis has the
/// smallest time among the axes in that window.
pub open spec fn fallback_x(o: Vec3, v: Vec3, dt: int) -> bool {
    &&& time_in_window(o.x as int, v.x as int, dt, 200)
    &&& time_in_window(o.y as int, v.y as int, dt, 200) ==> time_ge(o.y as int, v.y as int, o.x as int, v.x as int)
    &&& time_in_window(o.z as int, v.z as int, dt, 200) ==> time_ge(o.z as int, v.z as int, o.x as int, v.x as int)
}

pub open spec fn fallback_y(o: Vec3, v: Vec3, dt: int) -> bool {
    &&& time_in_window(o.y as int, v.y as int, dt, 200)
    &&& time_in_window(o.x as int, v.x as int, dt, 200) ==> time_ge(o.x as int, v.x as int, o.y as int, v.y as int)
    &&& time_in_window(o.z as int, v.z as int, dt, 200) ==> time_ge(o.z as int, v.z as int, o.y as int, v.y as int)
}

pub open spec fn fallback_z(o: Vec3, v: Vec3, dt: int) -> bool {
    &&& time_in_window(o.z as int, v.z as int, dt, 200)
    &&& time_in_window(o.x as int, v.x as int, dt, 200) ==> time_ge(o.x as int, v.x as int, o.z as int, v.z as int)
    &&& time_in_window(o.y as int, v.y as int, dt, 200) ==> time_ge(o.y as int, v.y as int, o.z as int, v.z as int)
}

pub open spec fn max_factor(a: int, b: int) -> int {
    if a >= b {
        a
    } else {
        b
    }
}

/// Raises every component of `f` to at least `s`.
pub open spec fn raise_friction(f: Vec3, s: int) -> Vec3 {
    Vec3 {
        x: max_factor(f.x as int, s) as i64,
        y: max_factor(f.y as int, s) as i64,
        z: max_factor(f.z as int, s) as i64,
    }
}

/// The state after resolving one colliding volume with overlap `o`, met while
/// moving at the pass velocity `v`.
pub open spec fn resolve_spec(r: Resolution, s: SurfaceFriction, v: Vec3, o: Vec3, dt: int) -> Resolution {
    match chosen_axis(o, v, dt) {
        Some(Axis::Y) => Resolution {
            move_back: Vec3 { y: clamp(with_margin(o.y as int)) as i64, ..r.move_back },
            friction: raise_friction(r.friction, if v.y >= 0 { s.bottom as int } else { s.top as int }),
            grounded: Grounded { y: true, ..r.grounded },
            velocity: Vec3 { y: 0, ..r.velocity },
            ..r
        },
        Some(Axis::X) => Resolution {
            move_back: Vec3 { x: clamp(with_margin(o.x as int)) as i64, ..r.move_back },
            friction: raise_friction(r.friction, if v.x >= 0 { s.left as int } else { s.right as int }),
            grounded: Grounded { x: true, ..r.grounded },
            velocity: Vec3 { x: 0, ..r.velocity },
            ..r
        },
        Some(Axis::Z) => Resolution {
            move_back: Vec3 { z: clamp(with_margin(o.z as int)) as i64, ..r.move_back },
            friction: raise_friction(r.friction, if v.z >= 0 { s.back as int } else { s.front as int }),
            grounded: Grounded { z: true, ..r.grounded },
            velocity: Vec3 { z: 0, ..r.velocity },
            ..r
        },
        None => Resolution {
            move_back: Vec3 {
                x: if fallback_x(o, v, dt) {
                    clamp(r.move_back.x + with_margin(o.x as int)) as i64
                } else {
                    r.move_back.x
                },
                y: if fallback_y(o, v, dt) {
                    clamp(r.move_back.y + with_margin(o.y as int)) as i64
                } else {
                    r.move_back.y
                },
                z: if fallback_z(o, v, dt) {
                    clamp(r.move_back.z + with_margin(o.z as int)) as i64
                } else {
                    r.move_back.z
                },
            },
            ..r
        },
    }
}

pub open spec fn overlap_wf(o: Vec3) -> bool {
    abs(o.x as int) <= 2 * COORD_LIMIT && abs(o.y as int) <= 2 * COORD_LIMIT && abs(o.z as int)
        <= 2 * COORD_LIMIT
}

pub open spec fn pass_velocity_wf(v: Vec3) -> bool {
    abs(v.x as int) <= 4 * COORD_LIMIT && abs(v.y as int) <= 4 * COORD_LIMIT && abs(v.z as int)
        <= 4 * COORD_LIMIT
}

fn time_numerator(o: i64, v: i64) -> (r: i128)
    requires
        abs(o as int) <= 2 * COORD_LIMIT,
    ensures
        r == time_num(o as int, v as int),
{
    if v < 0 {
        o as i128
    } else {
        -(o as i128)
    }
}

fn time_denominator(v: i64) -> (r: i128)
    requires
        abs(v as int) <= 4 * COORD_LIMIT,
    ensures
        r == time_den(v as int),
        0 <= r <= 4 * COORD_LIMIT,
{
    if v < 0 {
        -(v as i128)
    } else {
        v as i128
    }
}

fn in_window(o: i64, v: i64, dt: i64, percent: i64) -> (r: bool)
    requires
        abs(o as int) <= 2 * COORD_LIMIT,
        abs(v as int) <= 4 * COORD_LIMIT,
        0 <= dt <= MAX_TICK,
        percent == 101 || percent == 200,
    ensures
        r == time_in_window(o as int, v as int, dt as int, percent as int),
{
    if v == 0 {
        return false;
    }
    let n = time_numerator(o, v);
    let d = time_denominator(v);
    if n <= 0 {
        return false;
    }
    let lhs: i128 = 100 * n;
    assert(lhs * SCALE <= 200 * COORD_LIMIT * SCALE) by (nonlinear_arith)
        requires lhs <= 200 * COORD_LIMIT, lhs >= 0;
    assert(0 <= percent * dt <= 200 * MAX_TICK) by (nonlinear_arith)
        requires percent <= 200, dt <= MAX_TICK, percent >= 0, dt >= 0;
    let pd: i128 = (percent as i128) * (dt as i128);
    assert(pd <= 200 * MAX_TICK) by (nonlinear_arith)
        requires pd == percent * dt, percent <= 200, dt <= MAX_TICK, percent >= 0, dt >= 0;
    assert(pd * d <= 200 * MAX_TICK * (4 * COORD_LIMIT)) by (nonlinear_arith)
        requires 0 <= pd <= 200 * MAX_TICK, 0 <= d <= 4 * COORD_LIMIT;
    assert(100 * n * SCALE == lhs * SCALE);
    assert(percent * dt * d == pd * d);
    lhs * (SCALE as i128) < pd * d
}

fn time_at_least(o1: i64, v1: i64, o2: i64, v2: i64) -> (r: bool)
    requires
        abs(o1 as int) <= 2 * COORD_LIMIT,
        abs(v1 as int) <= 4 * COORD_LIMIT,
        abs(o2 as int) <= 2 * COORD_LIMIT,
        abs(v2 as int) <= 4 * COORD_LIMIT,
    ensures
        r == time_ge(o1 as int, v1 as int, o2 as int, v2 as int),
{
    let n1 = time_numerator(o1, v1);
    let n2 = time_numerator(o2, v2);
    let d1 = time_denominator(v1);
    let d2 = time_denominator(v2);
    assert(4 * COORD_LIMIT <= 0x100_0000_0000_0000_0000);
    assert(-0x8_0000_0000_0000 * 0x100_0000_0000_0000_0000 <= n1 * d2 <= 0x8_0000_0000_0000 * 0x100_0000_0000_0000_0000) by (nonlinear_arith)
        requires -0x8_0000_0000_0000 <= n1 <= 0x8_0000_0000_0000, 0 <= d2 <= 0x100_0000_0000_0000_0000;
    assert(-0x8_0000_0000_0000 * 0x100_0000_0000_0000_0000 <= n2 * d1 <= 0x8_0000_0000_0000 * 0x100_0000_0000_0000_0000) by (nonlinear_arith)
        requires -0x8_0000_0000_0000 <= n2 <= 0x8_0000_0000_0000, 0 <= d1 <= 0x100_0000_0000_0000_0000;
    n1 * d2 >= n2 * d1
}

fn margin(o: i64) -> (r: i64)
    requires
        abs(o as int) <= 2 * COORD_LIMIT,
    ensures
        r == with_margin(o as int),
        abs(r as int) <= 3 * COORD_LIMIT,
{
    if o >= 0 {
        o + o / 100
    } else {
        o - (-o) / 100
    }
}

fn clamped_sum(a: i64, b: i64) -> (r: i64)
    requires
        in_limit(a as int),
        abs(b as int) <= 3 * COORD_LIMIT,
    ensures
        r == clamp(a + b),
        in_limit(r as int),
{
    let s = a + b;
    if s > COORD_LIMIT {
        COORD_LIMIT
    } else if s < -COORD_LIMIT {
        -COORD_LIMIT
    } else {
        s
    }
}

fn raised(f: Vec3, s: i64) -> (r: Vec3)
    requires
        friction_wf(f),
        unit_factor(s as int),
    ensures
        r == raise_friction(f, s as int),
        friction_wf(r),
{
    Vec3 {
        x: if f.x >= s { f.x } else { s },
        y: if f.y >= s { f.y } else { s },
        z: if f.z >= s { f.z } else { s },
    }
}

/// Resolves one colliding volume: picks the axis along which the actor is
/// pushed out, or failing that nudges it out along the quickest axis.
pub fn resolve_conflict(r: &mut Resolution, surface: &SurfaceFriction, velocity: Vec3, overlap: Vec3, dt: i64)
    requires
        old(r).wf(),
        surface.wf(),
        pass_velocity_wf(velocity),
        overlap_wf(overlap),
        0 <= dt <= MAX_TICK,
    ensures
        *final(r) == resolve_spec(*old(r), *surface, velocity, overlap, dt as int),
        final(r).wf(),
        final(r).velocity.x == old(r).velocity.x || final(r).velocity.x == 0,
        final(r).velocity.y == old(r).velocity.y || final(r).velocity.y == 0,
        final(r).velocity.z == old(r).velocity.z || final(r).velocity.z == 0,
{
    let (o, v) = (overlap, velocity);
    let vx = in_window(o.x, v.x, dt, 101);
    let vy = in_window(o.y, v.y, dt, 101);
    let vz = in_window(o.z, v.z, dt, 101);
    let y_ge_x = time_at_least(o.y, v.y, o.x, v.x);
    let y_ge_z = time_at_least(o.y, v.y, o.z, v.z);
    let x_ge_y = time_at_least(o.x, v.x, o.y, v.y);
    let x_ge_z = time_at_least(o.x, v.x, o.z, v.z);
    let z_ge_x = time_at_least(o.z, v.z, o.x, v.x);
    let z_ge_y = time_at_least(o.z, v.z, o.y, v.y);
    if vy && (!vx || y_ge_x) && (!vz || y_ge_z) {
        r.move_back.y = clamped_sum(0, margin(o.y));
        r.grounded.y = true;
        r.velocity.y = 0;
        let face = if v.y >= 0 { surface.bottom } else { surface.top };
        r.friction = raised(r.friction, face);
    } else if vx && (!vy || x_ge_y) && (!vz || x_ge_z) {
        r.move_back.x = clamped_sum(0, margin(o.x));
        r.grounded.x = true;
        r.velocity.x = 0;
        let face = if v.x >= 0 { surface.left } else { surface.right };
        r.friction = raised(r.friction, face);
    } else if vz {
        r.move_back.z = clamped_sum(0, margin(o.z));
        r.grounded.z = true;
        r.velocity.z = 0;
        let face = if v.z >= 0 { surface.back } else { surface.front };
        r.friction = raised(r.friction, face);
    } else {
        let fx = in_window(o.x, v.x, dt, 200);
        let fy = in_window(o.y, v.y, dt, 200);
        let fz = in_window(o.z, v.z, dt, 200);
        if fx && (!fy || y_ge_x) && (!fz || z_ge_x) {
            r.move_back.x = clamped_sum(r.move_back.x, margin(o.x));
        }
        if fy && (!fx || x_ge_y) && (!fz || z_ge_y) {
            r.move_back.y = clamped_sum(r.move_back.y, margin(o.y));
        }
        if fz && (!fx || x_ge_z) && (!fy || y_ge_z) {
            r.move_back.z = clamped_sum(r.move_back.z, margin(o.z));
        }
    }
}

} // verus!
