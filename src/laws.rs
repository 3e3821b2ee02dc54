use vstd::prelude::*;

use crate::geometry::{Aabb, Vec3};
use crate::movement::{
    accelerated, decayed, finished_velocity_y, integrated, keys_after, physics_spec, saturating_time,
    start_resolution, tick_spec, Motion, VELOCITY_LIMIT,
};
use crate::input::{Key, KeyEvent};
use crate::physics::{block_fold, block_step, model_fold, pass_spec, CellRange};
use crate::resolve::{chosen_axis, resolve_spec, Axis, Resolution, SurfaceFriction};
use crate::world::{Block, BlockGrid};

verus! {

/// The actor rests on an axis: grounded along y with no vertical speed.
pub open spec fn rests_y(r: Resolution) -> bool {
    r.grounded.y && r.velocity.y == 0
}

/// The actor is grounded along y only while it has no vertical speed.
pub open spec fn grounded_only_at_rest(r: Resolution) -> bool {
    r.grounded.y ==> r.velocity.y == 0
}

/// Both facts about y that a resolution step keeps.
pub open spec fn keeps_y_facts(r: Resolution, out: Resolution) -> bool {
    &&& rests_y(r) ==> rests_y(out)
    &&& grounded_only_at_rest(r) ==> grounded_only_at_rest(out)
}

proof fn resolve_keeps_y_facts(r: Resolution, s: SurfaceFriction, v: Vec3, o: Vec3, dt: int)
    ensures
        keeps_y_facts(r, resolve_spec(r, s, v, o, dt)),
{
}

/// Resolving a collision along y stops the vertical motion and grounds the
/// actor on that axis, together.
pub proof fn lemma_y_resolution_grounds(r: Resolution, s: SurfaceFriction, v: Vec3, o: Vec3, dt: int)
    requires
        chosen_axis(o, v, dt) == Some(Axis::Y),
    ensures
        rests_y(resolve_spec(r, s, v, o, dt)),
{
}

/// Once resting along y, later collisions of the same tick keep it so.
pub proof fn lemma_resolution_keeps_rest(r: Resolution, s: SurfaceFriction, v: Vec3, o: Vec3, dt: int)
    requires
        rests_y(r),
    ensures
        rests_y(resolve_spec(r, s, v, o, dt)),
{
    resolve_keeps_y_facts(r, s, v, o, dt);
}

proof fn lemma_block_fold_keeps_rest(r: Resolution, g: &BlockGrid, cr: CellRange, actor: Aabb, v: Vec3, dt: int, k: int)
    ensures
        block_fold(r, g, cr, actor, v, dt, k) matches Some(r2) ==> keeps_y_facts(r, r2),
    decreases k,
{
    if k > 0 {
        lemma_block_fold_keeps_rest(r, g, cr, actor, v, dt, k - 1);
        if let Some(r1) = block_fold(r, g, cr, actor, v, dt, k - 1) {
            let c = crate::physics::range_cell(cr.start, cr.ny, cr.nz, k - 1);
            if let Some(b) = g.block_at_spec(c.0, c.1, c.2) {
                block_step_keeps_rest(r1, b, c.0, c.1, c.2, actor, v, dt);
            }
        }
    }
}

proof fn block_step_keeps_rest(r: Resolution, b: Block, x: int, y: int, z: int, actor: Aabb, v: Vec3, dt: int)
    ensures
        keeps_y_facts(r, block_step(r, b, x, y, z, actor, v, dt)),
{
    let r1 = Resolution { friction: crate::physics::drag_max(r.friction, b.drag), ..r };
    let r2 = Resolution { swimming: true, ..r1 };
    let r3 = Resolution { swimming: r1.swimming, ..r1 };
    if let Some(s) = b.surface {
        resolve_keeps_y_facts(r2, s, v, crate::physics::overlap_of(actor, crate::physics::placed(b.collision.unwrap(), x, y, z)), dt);
        resolve_keeps_y_facts(r3, s, v, crate::physics::overlap_of(actor, crate::physics::placed(b.collision.unwrap(), x, y, z)), dt);
    }
}

proof fn lemma_model_fold_keeps_rest(r: Resolution, followed: Seq<u32>, models: Seq<(u32, Aabb)>, actor: Aabb, v: Vec3, dt: int, k: int)
    ensures
        keeps_y_facts(r, model_fold(r, followed, models, actor, v, dt, k)),
    decreases k,
{
    if k > 0 {
        lemma_model_fold_keeps_rest(r, followed, models, actor, v, dt, k - 1);
        let r1 = model_fold(r, followed, models, actor, v, dt, k - 1);
        resolve_keeps_y_facts(r1, crate::physics::model_surface_spec(), v, crate::physics::overlap_of(actor, models[k - 1].1), dt);
    }
}

/// A whole resolution pass keeps an actor resting along y resting, so a tick
/// in which any collision is resolved along y ends (before friction) with
/// the actor grounded along y and without vertical speed.
pub proof fn lemma_pass_keeps_rest(
    r: Resolution,
    g: &BlockGrid,
    followed: Seq<u32>,
    models: Seq<(u32, Aabb)>,
    p: Vec3,
    v: Vec3,
    dt: int,
)
    requires
        rests_y(r),
    ensures
        pass_spec(r, g, followed, models, p, v, dt) matches Some(r2) ==> rests_y(r2),
{
    pass_keeps_y_facts(r, g, followed, models, p, v, dt);
}

proof fn pass_keeps_y_facts(
    r: Resolution,
    g: &BlockGrid,
    followed: Seq<u32>,
    models: Seq<(u32, Aabb)>,
    p: Vec3,
    v: Vec3,
    dt: int,
)
    ensures
        pass_spec(r, g, followed, models, p, v, dt) matches Some(r2) ==> keeps_y_facts(r, r2),
{
    let moved = Vec3 {
        x: (p.x + crate::physics::travel(v.x as int, dt)) as i64,
        y: (p.y + crate::physics::travel(v.y as int, dt)) as i64,
        z: (p.z + crate::physics::travel(v.z as int, dt)) as i64,
    };
    let actor = crate::physics::actor_box(moved);
    let cr = crate::physics::cells_of(actor);
    lemma_block_fold_keeps_rest(r, g, cr, actor, v, dt, cr.count);
    if let Some(r1) = block_fold(r, g, cr, actor, v, dt, cr.count) {
        lemma_model_fold_keeps_rest(r1, followed, models, actor, v, dt, models.len() as int);
    }
}

/// A tick whose vertical pass leaves the actor resting along y ends its
/// physics step grounded along y with no vertical speed, and friction keeps
/// that speed at zero unless the actor has just left the water.
pub proof fn lemma_tick_ends_resting(
    m: Motion,
    followed: Seq<u32>,
    g: &BlockGrid,
    models: Seq<(u32, Aabb)>,
    p: Vec3,
    r1: Resolution,
    d: int,
    was_swimming: bool,
)
    requires
        pass_spec(start_resolution(m), g, followed, models, p, Vec3 { x: 0, y: integrated(m).y, z: 0 }, m.delta_time as int) == Some(r1),
        rests_y(r1),
        physics_spec(m, followed, g, models, p) is Some,
    ensures
        physics_spec(m, followed, g, models, p).unwrap().0.is_grounded.y,
        physics_spec(m, followed, g, models, p).unwrap().0.velocity.y == 0,
        !(was_swimming && !physics_spec(m, followed, g, models, p).unwrap().0.is_swimming)
            ==> finished_velocity_y(0, d, was_swimming, physics_spec(m, followed, g, models, p).unwrap().0.is_swimming) == 0,
{
    let v = integrated(m);
    lemma_pass_keeps_rest(r1, g, followed, models, p, Vec3 { x: v.x, y: 0, z: v.z }, m.delta_time as int);
}

/// The same for a whole tick as `Movement::update` runs it: where the
/// vertical pass leaves the actor resting along y, the tick ends grounded
/// along y with no vertical speed.
pub proof fn lemma_update_ends_resting(
    m: Motion,
    keys: Set<Key>,
    events: Seq<KeyEvent>,
    dt: int,
    f: Vec3,
    followed: Seq<u32>,
    g: &BlockGrid,
    models: Seq<(u32, Aabb)>,
    p: Vec3,
    r1: Resolution,
)
    requires
        ({
            let m1 = Motion { delta_time: dt as i64, last_jump: saturating_time(m.last_jump as int, dt) as i64, ..m };
            let ma = accelerated(m1, keys_after(keys, events), f);
            &&& pass_spec(start_resolution(ma), g, followed, models, p, Vec3 { x: 0, y: integrated(ma).y, z: 0 }, ma.delta_time as int) == Some(r1)
        }),
        rests_y(r1),
        tick_spec(m, keys, events, dt, f, followed, g, models, p) is Some,
    ensures
        tick_spec(m, keys, events, dt, f, followed, g, models, p).unwrap().0.is_grounded.y,
        tick_spec(m, keys, events, dt, f, followed, g, models, p).unwrap().0.velocity.y == 0,
{
    let m1 = Motion { delta_time: dt as i64, last_jump: saturating_time(m.last_jump as int, dt) as i64, ..m };
    let ma = accelerated(m1, keys_after(keys, events), f);
    lemma_tick_ends_resting(ma, followed, g, models, p, r1, 0, false);
}

/// An actor moving vertically when collision testing begins ends the
/// physics step grounded along y only at rest: the flag was cleared, and only
/// a resolution along y, which also stops the vertical motion, sets it again.
pub proof fn lemma_grounding_only_by_resolution(
    m: Motion,
    followed: Seq<u32>,
    g: &BlockGrid,
    models: Seq<(u32, Aabb)>,
    p: Vec3,
)
    requires
        m.velocity.y != 0,
        physics_spec(m, followed, g, models, p) is Some,
    ensures
        physics_spec(m, followed, g, models, p).unwrap().0.is_grounded.y
            ==> physics_spec(m, followed, g, models, p).unwrap().0.velocity.y == 0,
{
    let v = integrated(m);
    let dt = m.delta_time as int;
    let r0 = start_resolution(m);
    pass_keeps_y_facts(r0, g, followed, models, p, Vec3 { x: 0, y: v.y, z: 0 }, dt);
    let r1 = pass_spec(r0, g, followed, models, p, Vec3 { x: 0, y: v.y, z: 0 }, dt).unwrap();
    pass_keeps_y_facts(r1, g, followed, models, p, Vec3 { x: v.x, y: 0, z: v.z }, dt);
}

/// The same for a whole tick: an actor moving vertically when `update`
/// starts ends it grounded along y only at rest.
pub proof fn lemma_update_grounding_only_by_resolution(
    m: Motion,
    keys: Set<Key>,
    events: Seq<KeyEvent>,
    dt: int,
    f: Vec3,
    followed: Seq<u32>,
    g: &BlockGrid,
    models: Seq<(u32, Aabb)>,
    p: Vec3,
)
    requires
        m.velocity.y != 0,
        tick_spec(m, keys, events, dt, f, followed, g, models, p) is Some,
    ensures
        tick_spec(m, keys, events, dt, f, followed, g, models, p).unwrap().0.is_grounded.y
            ==> tick_spec(m, keys, events, dt, f, followed, g, models, p).unwrap().0.velocity.y == 0,
{
    let m1 = Motion { delta_time: dt as i64, last_jump: saturating_time(m.last_jump as int, dt) as i64, ..m };
    let ma = accelerated(m1, keys_after(keys, events), f);
    lemma_grounding_only_by_resolution(ma, followed, g, models, p);
}

/// An actor moving vertically at the start of a tick is not grounded along y
/// when collision testing begins.
pub proof fn lemma_motion_clears_grounding(m: Motion)
    requires
        m.velocity.y != 0,
    ensures
        !start_resolution(m).grounded.y,
{
}

/// Leaving the water adds exactly 1.5 blocks per second of upward speed
/// compared with staying in it, or with never having been in it, for the
/// same velocity and decay (below the speed limit).
pub proof fn lemma_swim_exit_boost(vy: int, d: int)
    requires
        -VELOCITY_LIMIT <= vy <= VELOCITY_LIMIT,
        0 <= d <= 1_000_000,
        decayed(vy, d) + 1_500_000 <= VELOCITY_LIMIT,
    ensures
        finished_velocity_y(vy, d, true, false) == finished_velocity_y(vy, d, true, true) + 1_500_000,
        finished_velocity_y(vy, d, true, false) == finished_velocity_y(vy, d, false, false) + 1_500_000,
{
    assert(decayed(vy, d) >= -VELOCITY_LIMIT) by (nonlinear_arith)
        requires
            -VELOCITY_LIMIT <= vy <= VELOCITY_LIMIT,
            0 <= d <= 1_000_000,
            decayed(vy, d) == (if vy >= 0 { vy * d / 1_000_000 } else { -((-vy) * d / 1_000_000) });
}

} // verus!
