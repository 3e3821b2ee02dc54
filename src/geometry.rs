use vstd::prelude::*;

verus! {

/// Fixed-point units in one block (for lengths), one second (for times in
/// microseconds) and one unit of a dimensionless factor.
pub const SCALE: i64 = 1_000_000;

/// Largest magnitude a coordinate or an extent may have.
pub const COORD_LIMIT: i64 = 0x4_0000_0000_0000;

pub open spec fn abs(v: int) -> int {
    if v < 0 {
        -v
    } else {
        v
    }
}

pub open spec fn in_limit(v: int) -> bool {
    -COORD_LIMIT <= v <= COORD_LIMIT
}

/// A vector in three dimensions, each component a fixed-point number with
/// `SCALE` units per block (or per block per second, and so on).
#[derive(Clone, Copy, Debug, PartialEq, Eq, Structural)]
pub struct Vec3 {
    pub x: i64,
    pub y: i64,
    pub z: i64,
}

impl Vec3 {
    pub fn new(x: i64, y: i64, z: i64) -> (r: Vec3)
        ensures
            r.x == x && r.y == y && r.z == z,
    {
        Vec3 { x, y, z }
    }

    pub fn zero() -> (r: Vec3)
        ensures
            r.x == 0 && r.y == 0 && r.z == 0,
    {
        Vec3 { x: 0, y: 0, z: 0 }
    }

    pub open spec fn zero_spec() -> Vec3 {
        Vec3 { x: 0, y: 0, z: 0 }
    }

    pub open spec fn bounded(self) -> bool {
        in_limit(self.x as int) && in_limit(self.y as int) && in_limit(self.z as int)
    }

    pub open spec fn nonneg(self) -> bool {
        self.x >= 0 && self.y >= 0 && self.z >= 0
    }
}

/// The sign of a distance carried over to an overlap: a distance of zero
/// counts as positive.
pub open spec fn with_sign_of(magnitude: int, distance: int) -> int {
    if distance >= 0 {
        magnitude
    } else {
        -magnitude
    }
}

/// How far two intervals, given by centers and half lengths, overlap on one axis.
pub open spec fn axis_overlap(ac: int, ah: int, bc: int, bh: int) -> int {
    ah + bh - abs(ac - bc)
}

/// An axis-aligned bounding box, given by its center and its (non-negative)
/// half extents.
#[derive(Clone, Copy, Debug, PartialEq, Eq, Structural)]
pub struct Aabb {
    pub center: Vec3,
    pub half_extents: Vec3,
}

impl Aabb {
    pub open spec fn wf(self) -> bool {
        self.center.bounded() && self.half_extents.bounded() && self.half_extents.nonneg()
    }

    pub open spec fn overlap_x(self, other: Aabb) -> int {
        axis_overlap(self.center.x as int, self.half_extents.x as int, other.center.x as int, other.half_extents.x as int)
    }

    pub open spec fn overlap_y(self, other: Aabb) -> int {
        axis_overlap(self.center.y as int, self.half_extents.y as int, other.center.y as int, other.half_extents.y as int)
    }

    pub open spec fn overlap_z(self, other: Aabb) -> int {
        axis_overlap(self.center.z as int, self.half_extents.z as int, other.center.z as int, other.half_extents.z as int)
    }

    /// Two boxes intersect when they overlap by a positive amount on every axis.
    pub open spec fn intersects(self, other: Aabb) -> bool {
        self.overlap_x(other) > 0 && self.overlap_y(other) > 0 && self.overlap_z(other) > 0
    }

    /// The overlap of two intersecting boxes, each component signed like the
    /// distance from `other`'s center to `self`'s.
    pub open spec fn signed_overlap_holds(self, other: Aabb, o: Vec3) -> bool {
        &&& o.x == with_sign_of(self.overlap_x(other), self.center.x - other.center.x)
        &&& o.y == with_sign_of(self.overlap_y(other), self.center.y - other.center.y)
        &&& o.z == with_sign_of(self.overlap_z(other), self.center.z - other.center.z)
    }

    /// The box that spans from `min` to `max`. Where an extent is odd, the
    /// center lies half a unit below the midpoint.
    pub fn from_min_max(min: Vec3, max: Vec3) -> (r: Aabb)
        requires
            min.bounded(),
            max.bounded(),
            min.x <= max.x && min.y <= max.y && min.z <= max.z,
        ensures
            r.wf(),
            r.half_extents.x == (max.x - min.x) / 2,
            r.half_extents.y == (max.y - min.y) / 2,
            r.half_extents.z == (max.z - min.z) / 2,
            r.center.x == min.x + r.half_extents.x,
            r.center.y == min.y + r.half_extents.y,
            r.center.z == min.z + r.half_extents.z,
    {
        let half_extents = Vec3 {
            x: (max.x - min.x) / 2,
            y: (max.y - min.y) / 2,
            z: (max.z - min.z) / 2,
        };
        let center = Vec3 {
            x: min.x + half_extents.x,
            y: min.y + half_extents.y,
            z: min.z + half_extents.z,
        };
        Aabb { center, half_extents }
    }

    /// The corner with the smallest coordinates.
    pub fn min(&self) -> (r: Vec3)
        requires
            self.wf(),
        ensures
            r.x == self.center.x - self.half_extents.x,
            r.y == self.center.y - self.half_extents.y,
            r.z == self.center.z - self.half_extents.z,
    {
        Vec3 {
            x: self.center.x - self.half_extents.x,
            y: self.center.y - self.half_extents.y,
            z: self.center.z - self.half_extents.z,
        }
    }

    /// The corner with the largest coordinates.
    pub fn max(&self) -> (r: Vec3)
        requires
            self.wf(),
        ensures
            r.x == self.center.x + self.half_extents.x,
            r.y == self.center.y + self.half_extents.y,
            r.z == self.center.z + self.half_extents.z,
    {
        Vec3 {
            x: self.center.x + self.half_extents.x,
            y: self.center.y + self.half_extents.y,
            z: self.center.z + self.half_extents.z,
        }
    }

    /// The signed overlap of two boxes, or `None` where they do not intersect.
    pub fn intersection(&self, other: &Aabb) -> (r: Option<Vec3>)
        requires
            self.wf(),
            other.wf(),
        ensures
            r is Some <==> self.intersects(*other),
            r matches Some(o) ==> self.signed_overlap_holds(*other, o),
    {
        let ox = overlap_on_axis(self.center.x, self.half_extents.x, other.center.x, other.half_extents.x);
        let oy = overlap_on_axis(self.center.y, self.half_extents.y, other.center.y, other.half_extents.y);
        let oz = overlap_on_axis(self.center.z, self.half_extents.z, other.center.z, other.half_extents.z);
        if ox > 0 && oy > 0 && oz > 0 {
            let dx = self.center.x - other.center.x;
            let dy = self.center.y - other.center.y;
            let dz = self.center.z - other.center.z;
            Some(Vec3 {
                x: if dx >= 0 { ox } else { -ox },
                y: if dy >= 0 { oy } else { -oy },
                z: if dz >= 0 { oz } else { -oz },
            })
        } else {
            None
        }
    }
}

fn overlap_on_axis(ac: i64, ah: i64, bc: i64, bh: i64) -> (r: i64)
    requires
        in_limit(ac as int),
        in_limit(bc as int),
        0 <= ah <= COORD_LIMIT,
        0 <= bh <= COORD_LIMIT,
    ensures
        r == axis_overlap(ac as int, ah as int, bc as int, bh as int),
{
    let d = ac - bc;
    let dist = if d < 0 { -d } else { d };
    ah + bh - dist
}

/// Intersection is antisymmetric: the two orders agree on whether two boxes
/// intersect, and on every axis where the centers differ the overlaps are
/// opposite. Where the centers coincide on an axis, both report the same
/// positive overlap there.
pub proof fn lemma_intersection_antisymmetric(a: Aabb, b: Aabb, ab: Vec3, ba: Vec3)
    requires
        a.wf(),
        b.wf(),
        a.intersects(b) ==> a.signed_overlap_holds(b, ab),
        b.intersects(a) ==> b.signed_overlap_holds(a, ba),
    ensures
        a.intersects(b) <==> b.intersects(a),
        a.intersects(b) && a.center.x != b.center.x ==> ab.x == -ba.x,
        a.intersects(b) && a.center.y != b.center.y ==> ab.y == -ba.y,
        a.intersects(b) && a.center.z != b.center.z ==> ab.z == -ba.z,
        a.intersects(b) && a.center.x == b.center.x ==> ab.x == ba.x && ab.x > 0,
        a.intersects(b) && a.center.y == b.center.y ==> ab.y == ba.y && ab.y > 0,
        a.intersects(b) && a.center.z == b.center.z ==> ab.z == ba.z && ab.z > 0,
{
}

} // verus!
