use vstd::prelude::*;

use crate::geometry::{abs, in_limit, with_sign_of, Aabb, Vec3, SCALE};
use crate::resolve::{
    pass_velocity_wf, resolve_conflict, resolve_spec, Resolution, SurfaceFriction, MAX_TICK,
};
use crate::world::{Block, BlockGrid, CELL_LIMIT};

verus! {

/// Largest magnitude of a position coordinate at the start of a tick.
pub const POSITION_LIMIT: i64 = 0x1_0000_0000_0000;

/// The friction of a model's faces: only its top holds the actor.
pub open spec fn model_surface_spec() -> SurfaceFriction {
    SurfaceFriction { top: 990_000, bottom: 0, left: 0, right: 0, front: 0, back: 0 }
}

fn model_surface() -> (r: SurfaceFriction)
    ensures
        r == model_surface_spec(),
        r.wf(),
{
    SurfaceFriction { top: 990_000, bottom: 0, left: 0, right: 0, front: 0, back: 0 }
}

pub open spec fn position_wf(p: Vec3) -> bool {
    abs(p.x as int) <= POSITION_LIMIT && abs(p.y as int) <= POSITION_LIMIT && abs(p.z as int)
        <= POSITION_LIMIT
}

/// The distance covered at velocity `v` in `dt` microseconds, rounded towards zero.
pub open spec fn travel(v: int, dt: int) -> int {
    if v >= 0 {
        v * dt / (SCALE as int)
    } else {
        -((-v) * dt / (SCALE as int))
    }
}

/// The actor's box when it stands at `p`: 0.6 blocks wide and deep, 1.8
/// blocks tall, with `p` at the middle of its base.
pub open spec fn actor_box(p: Vec3) -> Aabb {
    Aabb {
        center: Vec3 { x: p.x, y: (p.y + 900_000) as i64, z: p.z },
        half_extents: Vec3 { x: 300_000, y: 900_000, z: 300_000 },
    }
}

/// The signed overlap of two intersecting boxes.
pub open spec fn overlap_of(a: Aabb, b: Aabb) -> Vec3 {
    Vec3 {
        x: with_sign_of(a.overlap_x(b), a.center.x - b.center.x) as i64,
        y: with_sign_of(a.overlap_y(b), a.center.y - b.center.y) as i64,
        z: with_sign_of(a.overlap_z(b), a.center.z - b.center.z) as i64,
    }
}

pub open spec fn drag_max(f: Vec3, d: Vec3) -> Vec3 {
    Vec3 {
        x: if f.x >= d.x { f.x } else { d.x },
        y: if f.y >= d.y { f.y } else { d.y },
        z: if f.z >= d.z { f.z } else { d.z },
    }
}

/// The collision box of block `b` placed at cell `(x, y, z)`.
pub open spec fn placed(c: Aabb, x: int, y: int, z: int) -> Aabb {
    Aabb {
        center: Vec3 {
            x: (x * SCALE + c.center.x) as i64,
            y: (y * SCALE + c.center.y) as i64,
            z: (z * SCALE + c.center.z) as i64,
        },
        half_extents: c.half_extents,
    }
}

/// Whether a block's vertical drag makes the actor swim.
pub open spec fn swims_in(b: Block) -> bool {
    b.drag.y > 400_000
}

/// The effect of the block at cell `(x, y, z)` on a pass: its drag raises the
/// friction; where its collision box meets the actor, a strong vertical drag
/// makes the actor swim, and solid faces push the actor out.
pub open spec fn block_step(r: Resolution, b: Block, x: int, y: int, z: int, actor: Aabb, v: Vec3, dt: int) -> Resolution {
    let r1 = Resolution { friction: drag_max(r.friction, b.drag), ..r };
    match b.collision {
        None => r1,
        Some(c) => {
            let ba = placed(c, x, y, z);
            if !actor.intersects(ba) {
                r1
            } else {
                let r2 = Resolution { swimming: r1.swimming || swims_in(b), ..r1 };
                match b.surface {
                    None => r2,
                    Some(s) => resolve_spec(r2, s, v, overlap_of(actor, ba), dt),
                }
            }
        }
    }
}

/// The cell that holds coordinate `c`.
pub open spec fn cell_of(c: int) -> int {
    c / (SCALE as int)
}

/// The `k`-th cell of the range that starts at `s` and spans `ny` by `nz`
/// cells on its last two axes, walking z fastest, then y, then x.
pub open spec fn range_cell(s: (int, int, int), ny: int, nz: int, k: int) -> (int, int, int) {
    (s.0 + k / (ny * nz), s.1 + (k / nz) % ny, s.2 + k % nz)
}

/// A box of cells: its first cell, its extent on the y and z axes, and the
/// number of cells in it.
pub struct CellRange {
    pub start: (int, int, int),
    pub ny: int,
    pub nz: int,
    pub count: int,
}

/// The cells that a box touches: from the cell of its smallest corner to the
/// cell of its largest, inclusive.
pub open spec fn cells_of(a: Aabb) -> CellRange {
    let s = (
        cell_of(a.center.x - a.half_extents.x),
        cell_of(a.center.y - a.half_extents.y),
        cell_of(a.center.z - a.half_extents.z),
    );
    let e = (
        cell_of(a.center.x + a.half_extents.x),
        cell_of(a.center.y + a.half_extents.y),
        cell_of(a.center.z + a.half_extents.z),
    );
    CellRange {
        start: s,
        ny: e.1 - s.1 + 1,
        nz: e.2 - s.2 + 1,
        count: (e.0 - s.0 + 1) * (e.1 - s.1 + 1) * (e.2 - s.2 + 1),
    }
}

/// Whether every cell that a box touches lies in the grid.
pub open spec fn range_in_grid(g: &BlockGrid, a: Aabb) -> bool {
    &&& g.contains_cell(
        cell_of(a.center.x - a.half_extents.x),
        cell_of(a.center.y - a.half_extents.y),
        cell_of(a.center.z - a.half_extents.z),
    )
    &&& g.contains_cell(
        cell_of(a.center.x + a.half_extents.x),
        cell_of(a.center.y + a.half_extents.y),
        cell_of(a.center.z + a.half_extents.z),
    )
}

/// The blocks of the first `k` cells of the range, in order; `None` once a
/// block is not known.
pub open spec fn block_fold(r: Resolution, g: &BlockGrid, cr: CellRange, actor: Aabb, v: Vec3, dt: int, k: int) -> Option<Resolution>
    decreases k,
{
    if k <= 0 {
        Some(r)
    } else {
        match block_fold(r, g, cr, actor, v, dt, k - 1) {
            None => None,
            Some(r1) => {
                let c = range_cell(cr.start, cr.ny, cr.nz, k - 1);
                match g.block_at_spec(c.0, c.1, c.2) {
                    None => None,
                    Some(b) => Some(block_step(r1, b, c.0, c.1, c.2, actor, v, dt)),
                }
            }
        }
    }
}

/// A candidate model collides when it is followed and meets the actor.
pub open spec fn model_step(r: Resolution, followed: Seq<u32>, m: (u32, Aabb), actor: Aabb, v: Vec3, dt: int) -> Resolution {
    if followed.contains(m.0) && actor.intersects(m.1) {
        resolve_spec(r, model_surface_spec(), v, overlap_of(actor, m.1), dt)
    } else {
        r
    }
}

pub open spec fn model_fold(r: Resolution, followed: Seq<u32>, models: Seq<(u32, Aabb)>, actor: Aabb, v: Vec3, dt: int, k: int) -> Resolution
    decreases k,
{
    if k <= 0 {
        r
    } else {
        model_step(model_fold(r, followed, models, actor, v, dt, k - 1), followed, models[k - 1], actor, v, dt)
    }
}

/// One resolution pass at pass velocity `v` from position `p`: the blocks of
/// the cells the moved actor touches, then the candidate models. `None` where
/// a block there is not known.
pub open spec fn pass_spec(
    r: Resolution,
    g: &BlockGrid,
    followed: Seq<u32>,
    models: Seq<(u32, Aabb)>,
    p: Vec3,
    v: Vec3,
    dt: int,
) -> Option<Resolution> {
    let moved = Vec3 {
        x: (p.x + travel(v.x as int, dt)) as i64,
        y: (p.y + travel(v.y as int, dt)) as i64,
        z: (p.z + travel(v.z as int, dt)) as i64,
    };
    let actor = actor_box(moved);
    if !range_in_grid(g, actor) {
        None
    } else {
        match block_fold(r, g, cells_of(actor), actor, v, dt, cells_of(actor).count) {
            None => None,
            Some(r1) => Some(model_fold(r1, followed, models, actor, v, dt, models.len() as int)),
        }
    }
}

pub open spec fn models_wf(models: Seq<(u32, Aabb)>) -> bool {
    forall|i: int| 0 <= i < models.len() ==> (#[trigger] models[i]).1.wf()
}

pub(crate) fn travel_exec(v: i64, dt: i64) -> (r: i64)
    requires
        abs(v as int) <= 0x100_0000_0000,
        0 <= dt <= MAX_TICK,
    ensures
        r == travel(v as int, dt as int),
        abs(r as int) <= 0x2000_0000_0000,
{
    let a: i128 = if v < 0 { -(v as i128) } else { v as i128 };
    assert(0 <= a * dt <= 0x100_0000_0000 * 0x100_0000) by (nonlinear_arith)
        requires 0 <= a <= 0x100_0000_0000, 0 <= dt <= 0x100_0000;
    let q = a * (dt as i128) / (SCALE as i128);
    assert(q <= 0x2000_0000_0000) by (nonlinear_arith)
        requires q == a * dt / 1_000_000, 0 <= a * dt <= 0x100_0000_0000 * 0x100_0000;
    if v < 0 {
        -(q as i64)
    } else {
        q as i64
    }
}

fn cell_exec(c: i64) -> (r: i64)
    requires
        in_limit(c as int),
    ensures
        r == cell_of(c as int),
        abs(r as int) <= 8 * CELL_LIMIT,
{
    let r = if c >= 0 { c / SCALE } else { -((-c + SCALE - 1) / SCALE) };
    assert(r * SCALE <= c < r * SCALE + SCALE) by (nonlinear_arith)
        requires
            c >= 0 ==> r == c / 1_000_000,
            c < 0 ==> r == -((-c + 1_000_000 - 1) / 1_000_000);
    assert(r == c / SCALE) by (nonlinear_arith)
        requires r * 1_000_000 <= c < r * 1_000_000 + 1_000_000;
    assert(abs(r as int) <= 8 * CELL_LIMIT) by (nonlinear_arith)
        requires r * 1_000_000 <= c < r * 1_000_000 + 1_000_000, -0x4_0000_0000_0000 <= c <= 0x4_0000_0000_0000;
    r
}

} // verus!

verus! {

/// Coordinates of the actor's box that a pass can reach.
pub open spec fn actor_reach(a: Aabb) -> bool {
    &&& abs(a.center.x as int) <= 0x2_0000_0000_0000
    &&& abs(a.center.y as int) <= 0x2_0000_0000_0000
    &&& abs(a.center.z as int) <= 0x2_0000_0000_0000
    &&& 0 <= a.half_extents.x <= SCALE
    &&& 0 <= a.half_extents.y <= SCALE
    &&& 0 <= a.half_extents.z <= SCALE
}

pub open spec fn keeps_or_zeroes(a: Vec3, b: Vec3) -> bool {
    &&& (b.x == a.x || b.x == 0)
    &&& (b.y == a.y || b.y == 0)
    &&& (b.z == a.z || b.z == 0)
}

fn apply_block(r: &mut Resolution, b: Block, x: i64, y: i64, z: i64, actor: Aabb, v: Vec3, dt: i64)
    requires
        old(r).wf(),
        b.wf(),
        abs(x as int) <= 2 * CELL_LIMIT,
        abs(y as int) <= 2 * CELL_LIMIT,
        abs(z as int) <= 2 * CELL_LIMIT,
        actor.wf(),
        pass_velocity_wf(v),
        0 <= dt <= MAX_TICK,
    ensures
        *final(r) == block_step(*old(r), b, x as int, y as int, z as int, actor, v, dt as int),
        final(r).wf(),
        keeps_or_zeroes(old(r).velocity, final(r).velocity),
{
    let f = r.friction;
    let d = b.drag;
    r.friction = Vec3 {
        x: if f.x >= d.x { f.x } else { d.x },
        y: if f.y >= d.y { f.y } else { d.y },
        z: if f.z >= d.z { f.z } else { d.z },
    };
    match b.collision {
        None => {},
        Some(c) => {
            assert(abs(x * SCALE) <= 2 * CELL_LIMIT * SCALE) by (nonlinear_arith)
                requires abs(x as int) <= 2 * CELL_LIMIT;
            assert(abs(y * SCALE) <= 2 * CELL_LIMIT * SCALE) by (nonlinear_arith)
                requires abs(y as int) <= 2 * CELL_LIMIT;
            assert(abs(z * SCALE) <= 2 * CELL_LIMIT * SCALE) by (nonlinear_arith)
                requires abs(z as int) <= 2 * CELL_LIMIT;
            let ba = Aabb {
                center: Vec3 {
                    x: x * SCALE + c.center.x,
                    y: y * SCALE + c.center.y,
                    z: z * SCALE + c.center.z,
                },
                half_extents: c.half_extents,
            };
            assert(ba == placed(c, x as int, y as int, z as int));
            match actor.intersection(&ba) {
                None => {},
                Some(o) => {
                    assert(o == overlap_of(actor, ba));
                    if b.drag.y > 400_000 {
                        r.swimming = true;
                    }
                    match b.surface {
                        None => {},
                        Some(s) => {
                            resolve_conflict(r, &s, v, o, dt);
                        },
                    }
                },
            }
        },
    }
}

fn follows(models: &Vec<u32>, id: u32) -> (r: bool)
    ensures
        r == models@.contains(id),
{
    let mut i: usize = 0;
    while i < models.len()
        invariant
            i <= models@.len(),
            forall|j: int| 0 <= j < i ==> models@[j] != id,
        decreases models@.len() - i,
    {
        if models[i] == id {
            assert(models@[i as int] == id);
            return true;
        }
        i += 1;
    }
    false
}

fn model_pass(r: &mut Resolution, followed: &Vec<u32>, models: &Vec<(u32, Aabb)>, actor: Aabb, v: Vec3, dt: i64)
    requires
        old(r).wf(),
        models_wf(models@),
        actor.wf(),
        pass_velocity_wf(v),
        0 <= dt <= MAX_TICK,
    ensures
        *final(r) == model_fold(*old(r), followed@, models@, actor, v, dt as int, models@.len() as int),
        final(r).wf(),
        keeps_or_zeroes(old(r).velocity, final(r).velocity),
{
    let surface = model_surface();
    let mut k: usize = 0;
    while k < models.len()
        invariant
            k <= models@.len(),
            models_wf(models@),
            actor.wf(),
            pass_velocity_wf(v),
            0 <= dt <= MAX_TICK,
            surface == model_surface_spec(),
            surface.wf(),
            r.wf(),
            *r == model_fold(*old(r), followed@, models@, actor, v, dt as int, k as int),
            keeps_or_zeroes(old(r).velocity, r.velocity),
        decreases models@.len() - k,
    {
        let (id, ma) = models[k];
        assert(models@[k as int].1.wf());
        if follows(followed, id) {
            match actor.intersection(&ma) {
                None => {},
                Some(o) => {
                    assert(o == overlap_of(actor, ma));
                    resolve_conflict(r, &surface, v, o, dt);
                },
            }
        }
        k += 1;
    }
}

proof fn lemma_quotient_below(k: int, m: int, n: int)
    requires
        0 <= k < n * m,
        m > 0,
    ensures
        0 <= k / m < n,
{
    assert(0 <= k / m) by (nonlinear_arith)
        requires 0 <= k, m > 0;
    assert(k / m < n) by (nonlinear_arith)
        requires 0 <= k < n * m, m > 0;
}

proof fn lemma_cells_ordered(a: int, b: int)
    requires
        a <= b,
    ensures
        cell_of(a) <= cell_of(b),
{
    assert(a / 1_000_000 <= b / 1_000_000) by (nonlinear_arith)
        requires a <= b;
}

fn block_pass(r: &mut Resolution, g: &BlockGrid, actor: Aabb, v: Vec3, dt: i64) -> (ok: bool)
    requires
        old(r).wf(),
        g.wf(),
        actor.wf(),
        actor_reach(actor),
        pass_velocity_wf(v),
        0 <= dt <= MAX_TICK,
    ensures
        ok == (range_in_grid(g, actor) && block_fold(*old(r), g, cells_of(actor), actor, v, dt as int, cells_of(actor).count) is Some),
        ok ==> Some(*final(r)) == block_fold(*old(r), g, cells_of(actor), actor, v, dt as int, cells_of(actor).count),
        final(r).wf(),
        keeps_or_zeroes(old(r).velocity, final(r).velocity),
{
    let lo = actor.min();
    let hi = actor.max();
    let sx = cell_exec(lo.x);
    let sy = cell_exec(lo.y);
    let sz = cell_exec(lo.z);
    let ex = cell_exec(hi.x);
    let ey = cell_exec(hi.y);
    let ez = cell_exec(hi.z);
    if sx < g.min_x || sx >= g.min_x + g.size_x || sy < g.min_y || sy >= g.min_y + g.size_y || sz
        < g.min_z || sz >= g.min_z + g.size_z || ex < g.min_x || ex >= g.min_x + g.size_x || ey
        < g.min_y || ey >= g.min_y + g.size_y || ez < g.min_z || ez >= g.min_z + g.size_z {
        return false;
    }
    proof {
        lemma_cells_ordered(lo.x as int, hi.x as int);
        lemma_cells_ordered(lo.y as int, hi.y as int);
        lemma_cells_ordered(lo.z as int, hi.z as int);
    }
    let nx = (ex - sx + 1) as usize;
    let ny = (ey - sy + 1) as usize;
    let nz = (ez - sz + 1) as usize;
    let len = g.cells.len();
    proof {
        assert(1 <= nx * ny <= g.size_x * g.size_y) by (nonlinear_arith)
            requires 1 <= nx <= g.size_x, 1 <= ny <= g.size_y;
        assert(nx * ny * nz <= g.size_x * g.size_y * g.size_z) by (nonlinear_arith)
            requires 1 <= nx * ny <= g.size_x * g.size_y, 1 <= nz <= g.size_z;
        assert(1 <= ny * nz) by (nonlinear_arith)
            requires 1 <= ny, 1 <= nz;
        assert(ny * nz <= nx * ny * nz) by (nonlinear_arith)
            requires 1 <= nx, 1 <= ny, 1 <= nz;
        assert(nx * (ny * nz) == nx * ny * nz) by (nonlinear_arith);
    }
    let plane = ny * nz;
    let n = nx * plane;
    assert(n == cells_of(actor).count);
    let ghost cr = cells_of(actor);
    let ghost r0 = *r;
    let mut k: usize = 0;
    while k < n
        invariant
            k <= n,
            n == cr.count,
            cr == cells_of(actor),
            cr.start == (sx as int, sy as int, sz as int),
            cr.ny == ny,
            cr.nz == nz,
            plane == ny * nz,
            n == nx * plane,
            1 <= nx <= g.size_x,
            1 <= ny <= g.size_y,
            1 <= nz <= g.size_z,
            g.contains_cell(sx as int, sy as int, sz as int),
            g.contains_cell(ex as int, ey as int, ez as int),
            nx == ex - sx + 1,
            ny == ey - sy + 1,
            nz == ez - sz + 1,
            g.wf(),
            actor.wf(),
            pass_velocity_wf(v),
            0 <= dt <= MAX_TICK,
            r.wf(),
            block_fold(r0, g, cr, actor, v, dt as int, k as int) == Some(*r),
            r0 == *old(r),
            range_in_grid(g, actor),
            keeps_or_zeroes(r0.velocity, r.velocity),
        decreases n - k,
    {
        proof {
            lemma_quotient_below(k as int, plane as int, nx as int);
            let ki = k as int;
            let nzi = nz as int;
            let nyi = ny as int;
            assert(0 <= (ki / nzi) % nyi < nyi) by (nonlinear_arith)
                requires nyi >= 1, nzi >= 1, ki >= 0;
            assert(0 <= ki % nzi < nzi) by (nonlinear_arith)
                requires nzi >= 1;
        }
        let cx = sx + (k / plane) as i64;
        let cy = sy + ((k / nz) % ny) as i64;
        let cz = sz + (k % nz) as i64;
        assert((cx as int, cy as int, cz as int) == range_cell(cr.start, cr.ny, cr.nz, k as int));
        match g.block_at(cx, cy, cz) {
            None => {
                proof {
                    assert(block_fold(r0, g, cr, actor, v, dt as int, k as int + 1) is None);
                    lemma_fold_stays_none(r0, g, cr, actor, v, dt as int, k as int + 1, n as int);
                }
                return false;
            },
            Some(b) => {
                apply_block(r, b, cx, cy, cz, actor, v, dt);
            },
        }
        k += 1;
    }
    true
}

proof fn lemma_fold_stays_none(r: Resolution, g: &BlockGrid, cr: CellRange, actor: Aabb, v: Vec3, dt: int, k: int, n: int)
    requires
        block_fold(r, g, cr, actor, v, dt, k) is None,
        k <= n,
    ensures
        block_fold(r, g, cr, actor, v, dt, n) is None,
    decreases n - k,
{
    if k < n {
        lemma_fold_stays_none(r, g, cr, actor, v, dt, k + 1, n);
    }
}

} // verus!

verus! {

/// One resolution pass, at pass velocity `v` from position `p`. Returns
/// `false` where a block the actor would touch is not known.
pub fn run_pass(
    r: &mut Resolution,
    g: &BlockGrid,
    followed: &Vec<u32>,
    models: &Vec<(u32, Aabb)>,
    p: Vec3,
    v: Vec3,
    dt: i64,
) -> (ok: bool)
    requires
        old(r).wf(),
        g.wf(),
        models_wf(models@),
        position_wf(p),
        abs(v.x as int) <= 0x100_0000_0000,
        abs(v.y as int) <= 0x100_0000_0000,
        abs(v.z as int) <= 0x100_0000_0000,
        0 <= dt <= MAX_TICK,
    ensures
        ok == pass_spec(*old(r), g, followed@, models@, p, v, dt as int) is Some,
        ok ==> pass_spec(*old(r), g, followed@, models@, p, v, dt as int) == Some(*final(r)),
        final(r).wf(),
        keeps_or_zeroes(old(r).velocity, final(r).velocity),
{
    let moved = Vec3 {
        x: p.x + travel_exec(v.x, dt),
        y: p.y + travel_exec(v.y, dt),
        z: p.z + travel_exec(v.z, dt),
    };
    let actor = Aabb {
        center: Vec3 { x: moved.x, y: moved.y + 900_000, z: moved.z },
        half_extents: Vec3 { x: 300_000, y: 900_000, z: 300_000 },
    };
    assert(actor == actor_box(moved));
    if !block_pass(r, g, actor, v, dt) {
        return false;
    }
    model_pass(r, followed, models, actor, v, dt);
    true
}

} // verus!
