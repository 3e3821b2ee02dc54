use vstd::prelude::*;

use crate::geometry::{abs, Vec3, SCALE};
use crate::input::Key;

verus! {

/// Upward speed given by a jump, in micro-blocks per second.
pub const JUMP_VELOCITY: i64 = 9_000_000;

/// Downward acceleration of gravity, in micro-blocks per second squared.
pub const GRAVITY: i64 = 32_000_000;

/// Time after a jump before the next one may start, in microseconds:
/// 1.7 times the time gravity takes to cancel a jump.
pub const JUMP_TIME: i64 = 478_125;

pub open spec fn held(keys: Set<Key>, k: Key) -> int {
    if keys.contains(k) {
        1
    } else {
        0
    }
}

/// Integer square root: the largest `r` with `r * r <= n`.
pub open spec fn is_isqrt(n: int, r: int) -> bool {
    0 <= r && r * r <= n < (r + 1) * (r + 1)
}

/// The integer square root of `n`, for `n >= 0`.
pub open spec fn isqrt_of(n: int) -> int {
    choose|r: int| is_isqrt(n, r)
}

proof fn lemma_isqrt_unique(n: int, r: int)
    requires
        is_isqrt(n, r),
    ensures
        isqrt_of(n) == r,
{
    let q = isqrt_of(n);
    assert(is_isqrt(n, q));
    if q < r {
        assert((q + 1) * (q + 1) <= r * r) by (nonlinear_arith)
            requires 0 <= q < r;
    } else if r < q {
        assert((r + 1) * (r + 1) <= q * q) by (nonlinear_arith)
            requires 0 <= r < q;
    }
}

/// The horizontal direction that the movement keys ask for, from the camera's
/// forward direction `f`: forward and back along `(f.x, f.z)`, sideways along
/// `(-f.z, f.x)`.
pub open spec fn wish_x(keys: Set<Key>, f: Vec3) -> int {
    (held(keys, Key::KeyW) - held(keys, Key::KeyS)) * f.x - (held(keys, Key::KeyD) - held(keys, Key::KeyA)) * f.z
}

pub open spec fn wish_z(keys: Set<Key>, f: Vec3) -> int {
    (held(keys, Key::KeyW) - held(keys, Key::KeyS)) * f.z + (held(keys, Key::KeyD) - held(keys, Key::KeyA)) * f.x
}

/// The camera direction is a unit vector in fixed point.
pub open spec fn camera_wf(f: Vec3) -> bool {
    abs(f.x as int) <= SCALE && abs(f.y as int) <= SCALE && abs(f.z as int) <= SCALE
}

/// The vertical intent while swimming: descending wins over rising.
pub open spec fn swim_vertical(keys: Set<Key>) -> int {
    if keys.contains(Key::Shift) {
        -30 * SCALE
    } else if keys.contains(Key::Space) {
        20 * SCALE
    } else {
        0
    }
}

/// Whether a jump starts: the jump key is held, the actor is not swimming,
/// stands on the ground and the cooldown has passed.
pub open spec fn jump_fires(keys: Set<Key>, swimming: bool, grounded_y: bool, last_jump: int) -> bool {
    keys.contains(Key::Space) && !swimming && grounded_y && last_jump > JUMP_TIME
}

/// Already moving fast through the air.
pub open spec fn fast_in_air(v: Vec3) -> bool {
    abs(v.x as int) > 2 * SCALE || abs(v.z as int) > 2 * SCALE || v.y < -10 * SCALE
}

/// The acceleration for one tick, given the unit horizontal direction
/// `(hx, hz)` and the velocity after any jump.
pub open spec fn acceleration_of(
    hx: int,
    hz: int,
    keys: Set<Key>,
    swimming: bool,
    grounded_y: bool,
    v: Vec3,
) -> (int, int, int) {
    if swimming {
        let vy = swim_vertical(keys);
        (40 * hx, if vy == 0 { -10 * SCALE } else { vy }, 40 * hz)
    } else {
        let m: int = if grounded_y {
            100
        } else if fast_in_air(v) {
            50
        } else {
            20
        };
        (m * hx, -GRAVITY as int, m * hz)
    }
}

/// The integer square root of `n`.
pub fn isqrt(n: u128) -> (r: u128)
    requires
        n < 0x100_0000_0000_0000_0000_0000_0000,
    ensures
        is_isqrt(n as int, r as int),
{
    let mut lo: u128 = 0;
    let mut hi: u128 = 0x10_0000_0000_0000;
    assert(hi * hi > n) by (nonlinear_arith)
        requires hi == 0x10_0000_0000_0000, n < 0x100_0000_0000_0000_0000_0000_0000;
    while hi - lo > 1
        invariant
            lo < hi <= 0x10_0000_0000_0000,
            lo * lo <= n,
            n < hi * hi,
        decreases hi - lo,
    {
        let mid = lo + (hi - lo) / 2;
        assert(mid < hi);
        assert(mid * mid < 0x10_0000_0000_0000 * 0x10_0000_0000_0000) by (nonlinear_arith)
            requires mid < 0x10_0000_0000_0000;
        if mid * mid <= n {
            lo = mid;
        } else {
            hi = mid;
        }
    }
    assert(hi == lo + 1);
    lo
}

/// Extra precision of the length that a direction is divided by.
pub const LENGTH_PRECISION: i64 = 1000;

/// The length of a horizontal direction `(x, z)`, in units of
/// `1 / (SCALE * LENGTH_PRECISION)`: the integer square root of
/// `(x * x + z * z) * (SCALE * LENGTH_PRECISION)²`.
pub open spec fn fixed_length(x: int, z: int) -> int {
    isqrt_of((x * x + z * z) * (SCALE * LENGTH_PRECISION) * (SCALE * LENGTH_PRECISION))
}

/// `a * SCALE * SCALE * LENGTH_PRECISION / len`, rounded to the nearest
/// integer (halves away from zero): component `a` of a direction of length
/// `len`, scaled to length `SCALE`.
pub open spec fn unit_component(a: int, len: int) -> int {
    if a >= 0 {
        (2 * a * SCALE * SCALE * LENGTH_PRECISION + len) / (2 * len)
    } else {
        -((2 * (-a) * SCALE * SCALE * LENGTH_PRECISION + len) / (2 * len))
    }
}

/// A rounded component falls short of the exact one by at most half a unit,
/// in squares: `4 * r² * len² >= a² - 2 * a * len` for `a = 2 * x * s² * k`.
proof fn lemma_rounded_below(a: int, len: int, r: int)
    requires
        a >= 0,
        len > 0,
        r >= 0,
        a + len < 2 * (r + 1) * len,
    ensures
        4 * r * r * (len * len) >= a * a - 2 * a * len,
{
    if a >= len {
        assert(2 * (r + 1) * len == 2 * r * len + 2 * len) by (nonlinear_arith);
        assert(0 <= a - len < 2 * r * len);
        assert((a - len) * (a - len) <= (2 * r * len) * (2 * r * len)) by (nonlinear_arith)
            requires 0 <= a - len < 2 * r * len;
        assert(4 * r * r * (len * len) == (2 * r * len) * (2 * r * len)) by (nonlinear_arith);
        assert((a - len) * (a - len) == a * a - 2 * a * len + len * len) by (nonlinear_arith);
    } else {
        assert(a * a - 2 * a * len <= 0) by (nonlinear_arith)
            requires 0 <= a < len;
        assert(4 * r * r * (len * len) >= 0) by (nonlinear_arith)
            requires r >= 0;
    }
}

/// A rounded component exceeds the exact one by at most half a unit, in
/// squares.
proof fn lemma_rounded_above(a: int, len: int, r: int)
    requires
        a >= 0,
        len > 0,
        r >= 0,
        2 * r * len <= a + len,
    ensures
        4 * r * r * (len * len) <= a * a + 2 * a * len + len * len,
{
    assert((2 * r * len) * (2 * r * len) <= (a + len) * (a + len)) by (nonlinear_arith)
        requires 0 <= 2 * r * len <= a + len;
    assert(4 * r * r * (len * len) == (2 * r * len) * (2 * r * len)) by (nonlinear_arith);
    assert((a + len) * (a + len) == a * a + 2 * a * len + len * len) by (nonlinear_arith);
}

/// Rounding keeps a scaled direction within one unit of length `s`.
proof fn lemma_near_unit(ax: int, az: int, len: int, rx: int, rz: int, s: int, k: int)
    requires
        s == SCALE,
        k == LENGTH_PRECISION,
        0 <= ax,
        0 <= az,
        ax > 0 || az > 0,
        len * len <= (ax * ax + az * az) * (s * k) * (s * k) < (len + 1) * (len + 1),
        len >= 0,
        0 <= rx,
        0 <= rz,
        2 * rx * len <= 2 * ax * s * s * k + len < 2 * (rx + 1) * len,
        2 * rz * len <= 2 * az * s * s * k + len < 2 * (rz + 1) * len,
    ensures
        (s - 1) * (s - 1) <= rx * rx + rz * rz <= (s + 1) * (s + 1),
{
    let w = s * k;
    let m = (ax * ax + az * az) * w * w;
    let a = 2 * ax * s * s * k;
    let b = 2 * az * s * s * k;
    assert(a == 2 * s * (ax * w) && b == 2 * s * (az * w)) by (nonlinear_arith)
        requires a == 2 * ax * s * s * k, b == 2 * az * s * s * k, w == s * k;
    assert(m == (ax * w) * (ax * w) + (az * w) * (az * w)) by (nonlinear_arith)
        requires m == (ax * ax + az * az) * w * w;
    assert(ax * ax + az * az >= 1) by (nonlinear_arith)
        requires 0 <= ax, 0 <= az, ax > 0 || az > 0;
    assert(m >= (s * k) * (s * k)) by (nonlinear_arith)
        requires m == (ax * ax + az * az) * (s * k) * (s * k), ax * ax + az * az >= 1;
    assert(len >= s * k) by (nonlinear_arith)
        requires (s * k) * (s * k) <= m, m < (len + 1) * (len + 1), len >= 0, s * k > 0;
    let px = ax * w;
    let pz = az * w;
    assert(a * a == 4 * (s * s) * (px * px)) by (nonlinear_arith)
        requires a == 2 * s * px;
    assert(b * b == 4 * (s * s) * (pz * pz)) by (nonlinear_arith)
        requires b == 2 * s * pz;
    assert(a * a + b * b == 4 * (s * s) * m) by (nonlinear_arith)
        requires a * a == 4 * (s * s) * (px * px), b * b == 4 * (s * s) * (pz * pz), m == px * px + pz * pz;
    assert(a >= 0 && b >= 0) by (nonlinear_arith)
        requires a == 2 * ax * s * s * k, b == 2 * az * s * s * k, ax >= 0, az >= 0, s > 0, k > 0;
    assert((a + b) * (a + b) <= 2 * (a * a + b * b)) by (nonlinear_arith);
    assert(4 * (s * s) * m < 4 * (s * s) * ((len + 1) * (len + 1))) by (nonlinear_arith)
        requires m < (len + 1) * (len + 1), s > 0;
    assert(8 * (s * s) * ((len + 1) * (len + 1)) <= 9 * (s * s) * ((len + 1) * (len + 1))) by (nonlinear_arith);
    assert((a + b) * (a + b) < 9 * (s * s) * ((len + 1) * (len + 1)));
    let t = 3 * s * (len + 1);
    assert(a + b < t) by (nonlinear_arith)
        requires
            (a + b) * (a + b) < 9 * (s * s) * ((len + 1) * (len + 1)),
            a + b >= 0,
            t == 3 * s * (len + 1),
            s > 0,
            len >= 0;
    lemma_rounded_above(a, len, rx);
    lemma_rounded_above(b, len, rz);
    lemma_rounded_below(a, len, rx);
    lemma_rounded_below(b, len, rz);
    let q = rx * rx + rz * rz;
    let l2 = len * len;
    assert(4 * q * l2 == 4 * rx * rx * l2 + 4 * rz * rz * l2) by (nonlinear_arith)
        requires q == rx * rx + rz * rz;
    assert(2 * a * len + 2 * b * len == 2 * (a + b) * len) by (nonlinear_arith);
    assert(2 * (a + b) * len <= 2 * t * len) by (nonlinear_arith)
        requires a + b < t, len >= 0;
    // Upper bound.
    assert(4 * q * l2 <= 4 * (s * s) * ((len + 1) * (len + 1)) + 2 * t * len + 2 * l2);
    assert(q <= (s + 1) * (s + 1)) by (nonlinear_arith)
        requires
            4 * q * l2 <= 4 * (s * s) * ((len + 1) * (len + 1)) + 2 * t * len + 2 * l2,
            l2 == len * len,
            t == 3 * s * (len + 1),
            len >= s * k,
            s == 1_000_000,
            k == 1000;
    // Lower bound.
    assert(4 * (s * s) * m >= 4 * (s * s) * l2) by (nonlinear_arith)
        requires l2 == len * len, l2 <= m, s > 0;
    assert(4 * q * l2 >= 4 * (s * s) * l2 - 2 * t * len);
    assert(q >= (s - 1) * (s - 1)) by (nonlinear_arith)
        requires
            4 * q * l2 >= 4 * (s * s) * l2 - 2 * t * len,
            l2 == len * len,
            t == 3 * s * (len + 1),
            len >= s * k,
            s == 1_000_000,
            k == 1000;
}

/// Scales a horizontal direction to length `SCALE` (within one unit), or
/// leaves zero as it is.
pub fn normalize_horizontal(x: i64, z: i64) -> (r: (i64, i64))
    requires
        abs(x as int) <= 2 * SCALE,
        abs(z as int) <= 2 * SCALE,
    ensures
        x == 0 && z == 0 ==> r.0 == 0 && r.1 == 0,
        !(x == 0 && z == 0) ==> r.0 == unit_component(x as int, fixed_length(x as int, z as int))
            && r.1 == unit_component(z as int, fixed_length(x as int, z as int)),
        !(x == 0 && z == 0) ==> (SCALE - 1) * (SCALE - 1) <= r.0 * r.0 + r.1 * r.1 <= (SCALE + 1) * (SCALE + 1),
        abs(r.0 as int) <= SCALE && abs(r.1 as int) <= SCALE,
{
    if x == 0 && z == 0 {
        return (0, 0);
    }
    let ax: u128 = if x < 0 { (-x) as u128 } else { x as u128 };
    let az: u128 = if z < 0 { (-z) as u128 } else { z as u128 };
    let s: u128 = SCALE as u128;
    let k: u128 = LENGTH_PRECISION as u128;
    assert(ax * ax <= 4 * SCALE * SCALE && az * az <= 4 * SCALE * SCALE) by (nonlinear_arith)
        requires ax <= 2 * SCALE, az <= 2 * SCALE;
    let sq = ax * ax + az * az;
    let sk = s * k;
    assert(sq * sk * sk <= 8_000_000_000_000 * 1_000_000_000 * 1_000_000_000) by (nonlinear_arith)
        requires sq <= 8 * SCALE * SCALE, sk == 1_000_000_000, SCALE == 1_000_000;
    let n = sq * sk * sk;
    assert(x * x + z * z == sq) by (nonlinear_arith)
        requires ax == abs(x as int), az == abs(z as int), sq == ax * ax + az * az;
    let len = isqrt(n);
    assert(ax * sk <= len) by (nonlinear_arith)
        requires ax * ax <= sq, n == sq * sk * sk, n < (len + 1) * (len + 1), len >= 0, sk > 0;
    assert(az * sk <= len) by (nonlinear_arith)
        requires az * az <= sq, n == sq * sk * sk, n < (len + 1) * (len + 1), len >= 0, sk > 0;
    assert(len > 0) by (nonlinear_arith)
        requires ax * sk <= len, az * sk <= len, ax > 0 || az > 0, sk > 0;
    assert(2 * ax * s * s * k <= 4_000_000 * 1_000_000_000_000_000 && 2 * az * s * s * k <= 4_000_000
        * 1_000_000_000_000_000) by (nonlinear_arith)
        requires ax <= 2_000_000, az <= 2_000_000, s == 1_000_000, k == 1000;
    assert(len <= 0x10_0000_0000_0000) by (nonlinear_arith)
        requires len * len <= n, n < 0x100_0000_0000_0000_0000_0000_0000, len >= 0;
    let nx = 2 * ax * s * s * k + len;
    let nz = 2 * az * s * s * k + len;
    let sx = nx / (2 * len);
    let sz = nz / (2 * len);
    assert(2 * sx * len <= nx < 2 * (sx + 1) * len) by (nonlinear_arith)
        requires sx == (nx as int) / (2 * (len as int)), len > 0, nx >= 0;
    assert(2 * sz * len <= nz < 2 * (sz + 1) * len) by (nonlinear_arith)
        requires sz == (nz as int) / (2 * (len as int)), len > 0, nz >= 0;
    assert(sx <= s && sz <= s) by (nonlinear_arith)
        requires
            2 * sx * len <= 2 * ax * s * s * k + len,
            2 * sz * len <= 2 * az * s * s * k + len,
            ax * (s * k) <= len,
            az * (s * k) <= len,
            len > 0,
            s > 0,
            sx >= 0,
            sz >= 0;
    proof {
        lemma_near_unit(ax as int, az as int, len as int, sx as int, sz as int, s as int, k as int);
        assert((x * x + z * z) * (SCALE * LENGTH_PRECISION) * (SCALE * LENGTH_PRECISION) == n);
        lemma_isqrt_unique(n as int, len as int);
    }
    let rx = if x < 0 { -(sx as i64) } else { sx as i64 };
    let rz = if z < 0 { -(sz as i64) } else { sz as i64 };
    assert(rx * rx == sx * sx && rz * rz == sz * sz) by (nonlinear_arith)
        requires rx == sx || rx == -sx, rz == sz || rz == -sz;
    (rx, rz)
}

} // verus!
