use vstd::prelude::*;

use crate::geometry::{abs, Aabb, Vec3};
use crate::resolve::{friction_wf, SurfaceFriction};

verus! {

/// Largest magnitude of a cell coordinate, and of a grid's size on one axis.
pub const CELL_LIMIT: i64 = 0x1000_0000;

/// Largest magnitude of a block's collision offset or half extent.
pub const BLOCK_EXTENT: i64 = 0x100_0000_0000;

/// What the world knows of one block: how much it drags on the actor, the
/// friction of its faces where it is solid, and its collision box, whose
/// center is an offset from the block's corner cell position.
#[derive(Clone, Copy, Debug, PartialEq, Eq, Structural)]
pub struct Block {
    pub drag: Vec3,
    pub surface: Option<SurfaceFriction>,
    pub collision: Option<Aabb>,
}

impl Block {
    pub open spec fn wf(self) -> bool {
        &&& friction_wf(self.drag)
        &&& self.surface matches Some(s) ==> s.wf()
        &&& self.collision matches Some(c) ==> {
            &&& abs(c.center.x as int) <= BLOCK_EXTENT
            &&& abs(c.center.y as int) <= BLOCK_EXTENT
            &&& abs(c.center.z as int) <= BLOCK_EXTENT
            &&& 0 <= c.half_extents.x <= BLOCK_EXTENT
            &&& 0 <= c.half_extents.y <= BLOCK_EXTENT
            &&& 0 <= c.half_extents.z <= BLOCK_EXTENT
        }
    }
}

/// The loaded blocks of a box of cells, laid out by x, then y, then z; `None`
/// marks a cell whose block is not known.
pub struct BlockGrid {
    pub min_x: i64,
    pub min_y: i64,
    pub min_z: i64,
    pub size_x: i64,
    pub size_y: i64,
    pub size_z: i64,
    pub cells: Vec<Option<Block>>,
}

pub open spec fn flat_index(a: int, b: int, c: int, ny: int, nz: int) -> int {
    (a * ny + b) * nz + c
}

proof fn lemma_flat_index_bound(a: int, b: int, c: int, nx: int, ny: int, nz: int)
    requires
        0 <= a < nx,
        0 <= b < ny,
        0 <= c < nz,
    ensures
        0 <= flat_index(a, b, c, ny, nz) < nx * ny * nz,
{
    assert(0 <= a * ny + b < nx * ny) by (nonlinear_arith)
        requires 0 <= a < nx, 0 <= b < ny;
    assert(0 <= (a * ny + b) * nz + c < (nx * ny) * nz) by (nonlinear_arith)
        requires 0 <= a * ny + b < nx * ny, 0 <= c < nz;
    assert((nx * ny) * nz == nx * ny * nz) by (nonlinear_arith);
}

impl BlockGrid {
    pub open spec fn wf(&self) -> bool {
        &&& abs(self.min_x as int) <= CELL_LIMIT
        &&& abs(self.min_y as int) <= CELL_LIMIT
        &&& abs(self.min_z as int) <= CELL_LIMIT
        &&& 0 <= self.size_x <= CELL_LIMIT
        &&& 0 <= self.size_y <= CELL_LIMIT
        &&& 0 <= self.size_z <= CELL_LIMIT
        &&& self.cells@.len() == self.size_x * self.size_y * self.size_z
        &&& forall|i: int| 0 <= i < self.cells@.len() ==> (#[trigger] self.cells@[i] matches Some(b) ==> b.wf())
    }

    pub open spec fn contains_cell(&self, x: int, y: int, z: int) -> bool {
        &&& self.min_x <= x < self.min_x + self.size_x
        &&& self.min_y <= y < self.min_y + self.size_y
        &&& self.min_z <= z < self.min_z + self.size_z
    }

    /// The block at a cell, or `None` where it is not known.
    pub open spec fn block_at_spec(&self, x: int, y: int, z: int) -> Option<Block> {
        if self.contains_cell(x, y, z) {
            self.cells@[flat_index(x - self.min_x, y - self.min_y, z - self.min_z, self.size_y as int, self.size_z as int)]
        } else {
            None
        }
    }

    /// The block at a cell, or `None` where it is not known.
    pub fn block_at(&self, x: i64, y: i64, z: i64) -> (r: Option<Block>)
        requires
            self.wf(),
            abs(x as int) <= 8 * CELL_LIMIT,
            abs(y as int) <= 8 * CELL_LIMIT,
            abs(z as int) <= 8 * CELL_LIMIT,
        ensures
            r == self.block_at_spec(x as int, y as int, z as int),
            r matches Some(b) ==> b.wf(),
    {
        if x < self.min_x || x >= self.min_x + self.size_x || y < self.min_y || y >= self.min_y
            + self.size_y || z < self.min_z || z >= self.min_z + self.size_z {
            return None;
        }
        let a = (x - self.min_x) as usize;
        let b = (y - self.min_y) as usize;
        let c = (z - self.min_z) as usize;
        let ny = self.size_y as usize;
        let nz = self.size_z as usize;
        let len = self.cells.len();
        proof {
            lemma_flat_index_bound(a as int, b as int, c as int, self.size_x as int, ny as int, nz as int);
            assert(a * ny + b <= (a * ny + b) * nz + c) by (nonlinear_arith)
                requires nz >= 1, c >= 0, a * ny + b >= 0;
            assert(a * ny <= a * ny + b);
            assert(flat_index(a as int, b as int, c as int, ny as int, nz as int) == (a * ny + b) * nz + c);
            assert((a * ny + b) * nz + c < len);
        }
        let i = (a * ny + b) * nz + c;
        self.cells[i]
    }
}

} // verus!
