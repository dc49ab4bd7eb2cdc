use vstd::prelude::*;

verus! {

/// World positions are fixed-point: one tile is this many units.
pub const UNITS_PER_TILE: i64 = 1000;

/// Largest magnitude of a coordinate that the geometry takes as a centre or
/// as a half-extent. Sums and differences of two such values fit an `i64`.
pub const COORD_LIMIT: i64 = 1_000_000_000_000_000_000;

/// Magnitude of a mathematical integer.
pub open spec fn abs_int(v: int) -> int {
    if v < 0 {
        -v
    } else {
        v
    }
}

/// `v` limited to the range from `lo` to `hi`: `lo` if `v` is below it, `hi`
/// if `v` is above it, and `v` itself otherwise.
pub open spec fn clamp_int(v: int, lo: int, hi: int) -> int {
    if v < lo {
        lo
    } else if v > hi {
        hi
    } else {
        v
    }
}

/// The tile index of a world coordinate: the quotient by `UNITS_PER_TILE`,
/// rounded toward zero and kept inside the range of `i32`.
pub open spec fn tile_of(units: int) -> int {
    let q = if units >= 0 {
        units / 1000
    } else {
        -((-units) / 1000)
    };
    clamp_int(q, i32::MIN as int, i32::MAX as int)
}

/// A point or displacement in world space, in fixed-point units.
#[derive(Clone, Copy, Debug, PartialEq, Eq, Structural)]
pub struct Vec3 {
    pub x: i64,
    pub y: i64,
    pub z: i64,
}

/// A cell of the board, or a displacement between cells.
#[derive(Clone, Copy, Debug, PartialEq, Eq, Structural)]
pub struct IVec3 {
    pub x: i32,
    pub y: i32,
    pub z: i32,
}

/// A column of the board, seen from above.
#[derive(Clone, Copy, Debug, PartialEq, Eq, Structural)]
pub struct IVec2 {
    pub x: i32,
    pub y: i32,
}

/// The size of the board, in tiles.
#[derive(Clone, Copy, Debug, PartialEq, Eq, Structural)]
pub struct UVec2 {
    pub x: u32,
    pub y: u32,
}

fn tile_index(units: i64) -> (tile: i32)
    ensures
        tile as int == tile_of(units as int),
{
    let q: i64 = if units >= 0 {
        units / 1000
    } else if units == i64::MIN {
        -(i64::MAX / 1000)
    } else {
        -((-units) / 1000)
    };
    if q < -2147483648 {
        i32::MIN
    } else if q > 2147483647 {
        i32::MAX
    } else {
        q as i32
    }
}

fn shift_axis(at: i64, delta: i64) -> (moved: i64)
    ensures
        moved as int == clamp_int(at + delta, -COORD_LIMIT as int, COORD_LIMIT as int),
{
    let sum: i128 = at as i128 + delta as i128;
    if sum < -1_000_000_000_000_000_000 {
        -COORD_LIMIT
    } else if sum > 1_000_000_000_000_000_000 {
        COORD_LIMIT
    } else {
        sum as i64
    }
}

impl Vec3 {
    /// Every component is within `COORD_LIMIT` of zero.
    pub open spec fn bounded(self) -> bool {
        &&& -COORD_LIMIT <= self.x <= COORD_LIMIT
        &&& -COORD_LIMIT <= self.y <= COORD_LIMIT
        &&& -COORD_LIMIT <= self.z <= COORD_LIMIT
    }

    /// Componentwise magnitude.
    pub open spec fn spec_abs(self) -> Vec3 {
        Vec3 {
            x: abs_int(self.x as int) as i64,
            y: abs_int(self.y as int) as i64,
            z: abs_int(self.z as int) as i64,
        }
    }

    /// The point displaced by `delta`, each coordinate kept within
    /// `COORD_LIMIT` of zero.
    pub open spec fn spec_shifted(self, delta: Vec3) -> Vec3 {
        Vec3 {
            x: clamp_int(self.x + delta.x, -COORD_LIMIT as int, COORD_LIMIT as int) as i64,
            y: clamp_int(self.y + delta.y, -COORD_LIMIT as int, COORD_LIMIT as int) as i64,
            z: clamp_int(self.z + delta.z, -COORD_LIMIT as int, COORD_LIMIT as int) as i64,
        }
    }

    /// The cell that holds this point.
    pub open spec fn spec_as_ivec3(self) -> IVec3 {
        IVec3 {
            x: tile_of(self.x as int) as i32,
            y: tile_of(self.y as int) as i32,
            z: tile_of(self.z as int) as i32,
        }
    }

    /// Whether every component is within `COORD_LIMIT` of zero.
    pub fn is_bounded(&self) -> (within: bool)
        ensures
            within == self.bounded(),
    {
        -COORD_LIMIT <= self.x && self.x <= COORD_LIMIT && -COORD_LIMIT <= self.y && self.y
            <= COORD_LIMIT && -COORD_LIMIT <= self.z && self.z <= COORD_LIMIT
    }

    pub fn new(x: i64, y: i64, z: i64) -> (v: Vec3)
        ensures
            v == (Vec3 { x, y, z }),
    {
        Vec3 { x, y, z }
    }

    /// Componentwise magnitude of a vector none of whose components is `i64::MIN`.
    pub fn abs(&self) -> (v: Vec3)
        requires
            self.x > i64::MIN,
            self.y > i64::MIN,
            self.z > i64::MIN,
        ensures
            v == self.spec_abs(),
    {
        Vec3 {
            x: if self.x < 0 { -self.x } else { self.x },
            y: if self.y < 0 { -self.y } else { self.y },
            z: if self.z < 0 { -self.z } else { self.z },
        }
    }

    /// The point displaced by `delta`; each coordinate stops at
    /// `COORD_LIMIT` on either side instead of passing it.
    pub fn shifted(&self, delta: Vec3) -> (v: Vec3)
        ensures
            v == self.spec_shifted(delta),
            v.bounded(),
    {
        Vec3 {
            x: shift_axis(self.x, delta.x),
            y: shift_axis(self.y, delta.y),
            z: shift_axis(self.z, delta.z),
        }
    }

    /// The cell that holds this point: each coordinate divided by the tile
    /// size, rounded toward zero, saturating at the ends of `i32`.
    pub fn as_ivec3(&self) -> (cell: IVec3)
        ensures
            cell == self.spec_as_ivec3(),
    {
        IVec3 { x: tile_index(self.x), y: tile_index(self.y), z: tile_index(self.z) }
    }
}

impl IVec3 {
    /// The world position of the cell's origin.
    pub open spec fn spec_as_vec3(self) -> Vec3 {
        Vec3 {
            x: (self.x as int * 1000) as i64,
            y: (self.y as int * 1000) as i64,
            z: (self.z as int * 1000) as i64,
        }
    }

    pub fn new(x: i32, y: i32, z: i32) -> (v: IVec3)
        ensures
            v == (IVec3 { x, y, z }),
    {
        IVec3 { x, y, z }
    }

    /// The world position of the cell's origin.
    pub fn as_vec3(&self) -> (v: Vec3)
        ensures
            v == self.spec_as_vec3(),
            v.bounded(),
    {
        Vec3 {
            x: self.x as i64 * UNITS_PER_TILE,
            y: self.y as i64 * UNITS_PER_TILE,
            z: self.z as i64 * UNITS_PER_TILE,
        }
    }
}

impl IVec2 {
    pub fn new(x: i32, y: i32) -> (v: IVec2)
        ensures
            v == (IVec2 { x, y }),
    {
        IVec2 { x, y }
    }
}

impl UVec2 {
    pub fn new(x: u32, y: u32) -> (v: UVec2)
        ensures
            v == (UVec2 { x, y }),
    {
        UVec2 { x, y }
    }
}

/// A displacement that keeps a point within the coordinate limit is a plain
/// sum.
pub proof fn law_shift_within_limit_is_sum(at: Vec3, delta: Vec3)
    requires
        -COORD_LIMIT <= at.x + delta.x <= COORD_LIMIT,
        -COORD_LIMIT <= at.y + delta.y <= COORD_LIMIT,
        -COORD_LIMIT <= at.z + delta.z <= COORD_LIMIT,
    ensures
        at.spec_shifted(delta).x == at.x + delta.x,
        at.spec_shifted(delta).y == at.y + delta.y,
        at.spec_shifted(delta).z == at.z + delta.z,
{
}

/// A cell's origin lies in that cell.
pub proof fn law_cell_round_trip(cell: IVec3)
    ensures
        cell.spec_as_vec3().spec_as_ivec3() == cell,
{
}

} // verus!
