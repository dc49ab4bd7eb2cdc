use crate::states::GameObjectType;
use crate::vector::{abs_int, Vec3, COORD_LIMIT};
use vstd::prelude::*;

verus! {

/// Two closed intervals share at least one value.
pub open spec fn spans_overlap(a_lo: int, a_hi: int, b_lo: int, b_hi: int) -> bool {
    a_lo <= b_hi && a_hi >= b_lo
}

/// An interval that the box operations keep: ordered, with ends within twice
/// `COORD_LIMIT` of zero and a length of at most twice `COORD_LIMIT`.
pub open spec fn span_wf(lo: int, hi: int) -> bool {
    &&& lo <= hi
    &&& -2 * COORD_LIMIT <= lo
    &&& hi <= 2 * COORD_LIMIT
    &&& hi - lo <= 2 * COORD_LIMIT
}

/// A 3D axis-aligned bounding box, given by its two extreme corners.
#[derive(Clone, Copy, Debug, PartialEq, Eq, Structural)]
pub struct LLAabb3d {
    pub min: Vec3,
    pub max: Vec3,
}

fn floor_half(s: i128) -> (h: i64)
    requires
        -0x1_0000_0000_0000_0000 <= s < 0x1_0000_0000_0000_0000,
    ensures
        h as int == s as int / 2,
{
    if s >= 0 {
        (s / 2) as i64
    } else {
        let t: i128 = (1 - s) / 2;
        (-t) as i64
    }
}

fn span_is_wf(lo: i64, hi: i64) -> (ok: bool)
    ensures
        ok == span_wf(lo as int, hi as int),
{
    lo <= hi && -2 * COORD_LIMIT <= lo && hi <= 2 * COORD_LIMIT && hi as i128 - lo as i128 <= 2
        * COORD_LIMIT as i128
}

impl LLAabb3d {
    /// `min <= max` on every axis, and every axis stays in the range that
    /// `new` and `update_center` produce.
    pub open spec fn wf(self) -> bool {
        &&& span_wf(self.min.x as int, self.max.x as int)
        &&& span_wf(self.min.y as int, self.max.y as int)
        &&& span_wf(self.min.z as int, self.max.z as int)
    }

    /// The box around `center` that reaches `|half_extents|` to each side.
    pub open spec fn spec_new(center: Vec3, half_extents: Vec3) -> LLAabb3d {
        LLAabb3d {
            min: Vec3 {
                x: (center.x - abs_int(half_extents.x as int)) as i64,
                y: (center.y - abs_int(half_extents.y as int)) as i64,
                z: (center.z - abs_int(half_extents.z as int)) as i64,
            },
            max: Vec3 {
                x: (center.x + abs_int(half_extents.x as int)) as i64,
                y: (center.y + abs_int(half_extents.y as int)) as i64,
                z: (center.z + abs_int(half_extents.z as int)) as i64,
            },
        }
    }

    /// The boxes, taken as closed sets, overlap on all three axes.
    pub open spec fn spec_intersects(self, other: LLAabb3d) -> bool {
        &&& spans_overlap(self.min.x as int, self.max.x as int, other.min.x as int, other.max.x as int)
        &&& spans_overlap(self.min.y as int, self.max.y as int, other.min.y as int, other.max.y as int)
        &&& spans_overlap(self.min.z as int, self.max.z as int, other.min.z as int, other.max.z as int)
    }

    /// The point lies in the box, faces included.
    pub open spec fn contains(self, p: Vec3) -> bool {
        &&& self.min.x <= p.x <= self.max.x
        &&& self.min.y <= p.y <= self.max.y
        &&& self.min.z <= p.z <= self.max.z
    }

    /// The midpoint of the two corners, rounded down where it falls between
    /// two units.
    pub open spec fn spec_center(self) -> Vec3 {
        Vec3 {
            x: ((self.min.x + self.max.x) / 2) as i64,
            y: ((self.min.y + self.max.y) / 2) as i64,
            z: ((self.min.z + self.max.z) / 2) as i64,
        }
    }

    /// Half the size along each axis, rounded down.
    pub open spec fn spec_half_extents(self) -> Vec3 {
        Vec3 {
            x: ((self.max.x - self.min.x) / 2) as i64,
            y: ((self.max.y - self.min.y) / 2) as i64,
            z: ((self.max.z - self.min.z) / 2) as i64,
        }
    }

    /// The size along each axis.
    pub open spec fn spec_extents(self) -> Vec3 {
        Vec3 {
            x: (self.max.x - self.min.x) as i64,
            y: (self.max.y - self.min.y) as i64,
            z: (self.max.z - self.min.z) as i64,
        }
    }

    /// The box that `update_center` leaves: the same size around a new
    /// centre. The new minimum lies the old half-extents below the centre,
    /// and the new maximum lies the old extents above the new minimum, so a
    /// box of odd size keeps its size too.
    pub open spec fn spec_recentered(self, new_center: Vec3) -> LLAabb3d {
        let h = self.spec_half_extents();
        let e = self.spec_extents();
        LLAabb3d {
            min: Vec3 {
                x: (new_center.x - h.x) as i64,
                y: (new_center.y - h.y) as i64,
                z: (new_center.z - h.z) as i64,
            },
            max: Vec3 {
                x: (new_center.x - h.x + e.x) as i64,
                y: (new_center.y - h.y + e.y) as i64,
                z: (new_center.z - h.z + e.z) as i64,
            },
        }
    }

    /// Whether the box is well formed.
    pub fn is_wf(&self) -> (ok: bool)
        ensures
            ok == self.wf(),
    {
        span_is_wf(self.min.x, self.max.x) && span_is_wf(self.min.y, self.max.y) && span_is_wf(
            self.min.z,
            self.max.z,
        )
    }

    /// Creates the box around `center` whose half size along each axis is the
    /// magnitude of the matching component of `half_extents`.
    pub fn new(center: Vec3, half_extents: Vec3) -> (aabb: LLAabb3d)
        requires
            center.bounded(),
            half_extents.bounded(),
        ensures
            aabb == Self::spec_new(center, half_extents),
            aabb.min.x == center.x - abs_int(half_extents.x as int),
            aabb.max.x == center.x + abs_int(half_extents.x as int),
            aabb.min.y == center.y - abs_int(half_extents.y as int),
            aabb.max.y == center.y + abs_int(half_extents.y as int),
            aabb.min.z == center.z - abs_int(half_extents.z as int),
            aabb.max.z == center.z + abs_int(half_extents.z as int),
            aabb.wf(),
            aabb.spec_center() == center,
            aabb.spec_half_extents() == half_extents.spec_abs(),
    {
        let positive_half_extents = half_extents.abs();
        LLAabb3d {
            min: Vec3 {
                x: center.x - positive_half_extents.x,
                y: center.y - positive_half_extents.y,
                z: center.z - positive_half_extents.z,
            },
            max: Vec3 {
                x: center.x + positive_half_extents.x,
                y: center.y + positive_half_extents.y,
                z: center.z + positive_half_extents.z,
            },
        }
    }

    /// Whether the two boxes overlap. The comparison is inclusive: boxes that
    /// only touch do intersect.
    pub fn intersects(&self, other: &LLAabb3d) -> (hit: bool)
        ensures
            hit == self.spec_intersects(*other),
    {
        let x_overlap = self.min.x <= other.max.x && self.max.x >= other.min.x;
        let y_overlap = self.min.y <= other.max.y && self.max.y >= other.min.y;
        let z_overlap = self.min.z <= other.max.z && self.max.z >= other.min.z;
        x_overlap && y_overlap && z_overlap
    }

    /// The centre of the box.
    pub fn center(&self) -> (c: Vec3)
        ensures
            c == self.spec_center(),
    {
        Vec3 {
            x: floor_half(self.min.x as i128 + self.max.x as i128),
            y: floor_half(self.min.y as i128 + self.max.y as i128),
            z: floor_half(self.min.z as i128 + self.max.z as i128),
        }
    }

    /// The size of the box along each axis.
    pub fn extents(&self) -> (e: Vec3)
        requires
            self.wf(),
        ensures
            e == self.spec_extents(),
            e.x == self.max.x - self.min.x,
            e.y == self.max.y - self.min.y,
            e.z == self.max.z - self.min.z,
    {
        Vec3 {
            x: self.max.x - self.min.x,
            y: self.max.y - self.min.y,
            z: self.max.z - self.min.z,
        }
    }

    /// Half the size of the box along each axis.
    pub fn half_extents(&self) -> (h: Vec3)
        ensures
            h == self.spec_half_extents(),
    {
        Vec3 {
            x: floor_half(self.max.x as i128 - self.min.x as i128),
            y: floor_half(self.max.y as i128 - self.min.y as i128),
            z: floor_half(self.max.z as i128 - self.min.z as i128),
        }
    }

    /// Moves the box so that `new_center` is its centre, keeping its size.
    pub fn update_center(&mut self, new_center: Vec3)
        requires
            old(self).wf(),
            new_center.bounded(),
        ensures
            *final(self) == old(self).spec_recentered(new_center),
            final(self).wf(),
            final(self).spec_extents() == old(self).spec_extents(),
            final(self).spec_half_extents() == old(self).spec_half_extents(),
            final(self).spec_center() == new_center,
    {
        let half_extents = self.half_extents();
        let extents = self.extents();
        self.min = Vec3 {
            x: new_center.x - half_extents.x,
            y: new_center.y - half_extents.y,
            z: new_center.z - half_extents.z,
        };
        self.max = Vec3 {
            x: self.min.x + extents.x,
            y: self.min.y + extents.y,
            z: self.min.z + extents.z,
        };
    }
}

/// A notification that the player and a body of another kind overlap.
#[derive(Clone, Copy, Debug, PartialEq, Eq, Structural)]
pub enum CollisionEvent {
    PlayerLog,
}

/// A body as the collision scan sees it: its kind and its box.
pub type Body = (GameObjectType, LLAabb3d);

/// The two bodies are of different kinds, their boxes intersect, and one of
/// them is the player.
pub open spec fn player_hit(a: Body, b: Body) -> bool {
    &&& a.1.spec_intersects(b.1)
    &&& a.0 != b.0
    &&& (a.0 == GameObjectType::Player || b.0 == GameObjectType::Player)
}

/// How many of the first `upto` bodies hit the body at `at` as `player_hit`
/// says.
pub open spec fn hits_against(bodies: Seq<Body>, at: int, upto: int) -> nat
    decreases upto,
{
    if upto <= 0 {
        0
    } else {
        hits_against(bodies, at, upto - 1) + if player_hit(bodies[upto - 1], bodies[at]) {
            1nat
        } else {
            0nat
        }
    }
}

/// How many unordered pairs among the first `upto` bodies are a
/// `player_hit`.
pub open spec fn hits_among(bodies: Seq<Body>, upto: int) -> nat
    decreases upto,
{
    if upto <= 0 {
        0
    } else {
        hits_among(bodies, upto - 1) + hits_against(bodies, upto - 1, upto - 1)
    }
}

/// Scans every unordered pair of distinct bodies and reports one collision
/// for each pair whose boxes intersect, whose kinds differ and of which one
/// is the player.
pub fn collision_detection_system(bodies: &Vec<Body>) -> (events: Vec<CollisionEvent>)
    ensures
        events@.len() == hits_among(bodies@, bodies@.len() as int),
        forall|k: int| 0 <= k < events@.len() ==> events@[k] == CollisionEvent::PlayerLog,
{
    let mut events: Vec<CollisionEvent> = Vec::new();
    let count: usize = bodies.len();
    let mut j: usize = 0;
    while j < count
        invariant
            j <= count,
            count == bodies@.len(),
            events@.len() == hits_among(bodies@, j as int),
        decreases count - j,
    {
        let mut i: usize = 0;
        while i < j
            invariant
                i <= j,
                j < count,
                count == bodies@.len(),
                events@.len() == hits_among(bodies@, j as int) + hits_against(
                    bodies@,
                    j as int,
                    i as int,
                ),
            decreases j - i,
        {
            let (got_a, aabb_a) = bodies[i];
            let (got_b, aabb_b) = bodies[j];
            if aabb_a.intersects(&aabb_b) && got_a != got_b {
                if got_a == GameObjectType::Player || got_b == GameObjectType::Player {
                    events.push(CollisionEvent::PlayerLog);
                }
            }
            i += 1;
        }
        j += 1;
    }
    events
}

/// No pair is counted unless it is a hit, so a scan that finds no hit among
/// the pairs reports nothing.
pub proof fn law_no_hit_no_event(bodies: Seq<Body>, upto: int)
    requires
        0 <= upto <= bodies.len(),
        forall|i: int, j: int| 0 <= i < j < upto ==> !player_hit(bodies[i], bodies[j]),
    ensures
        hits_among(bodies, upto) == 0,
    decreases upto,
{
    if upto > 0 {
        law_no_hit_no_event(bodies, upto - 1);
        lemma_no_hit_against(bodies, upto - 1, upto - 1);
    }
}

proof fn lemma_no_hit_against(bodies: Seq<Body>, at: int, upto: int)
    requires
        0 <= upto <= at < bodies.len(),
        forall|i: int| 0 <= i < upto ==> !player_hit(bodies[i], bodies[at]),
    ensures
        hits_against(bodies, at, upto) == 0,
    decreases upto,
{
    if upto > 0 {
        lemma_no_hit_against(bodies, at, upto - 1);
    }
}

/// One pair that is a hit is enough for the scan to report a collision.
pub proof fn law_hit_is_reported(bodies: Seq<Body>, i: int, j: int)
    requires
        0 <= i < j < bodies.len(),
        player_hit(bodies[i], bodies[j]),
    ensures
        hits_among(bodies, bodies.len() as int) > 0,
{
    lemma_hit_against(bodies, j, j, i);
    lemma_hits_among_grows(bodies, j + 1, bodies.len() as int);
}

proof fn lemma_hit_against(bodies: Seq<Body>, at: int, upto: int, i: int)
    requires
        0 <= i < upto <= at < bodies.len(),
        player_hit(bodies[i], bodies[at]),
    ensures
        hits_against(bodies, at, upto) > 0,
    decreases upto,
{
    if upto - 1 > i {
        lemma_hit_against(bodies, at, upto - 1, i);
    }
}

proof fn lemma_hits_among_grows(bodies: Seq<Body>, from: int, upto: int)
    requires
        0 <= from <= upto,
    ensures
        hits_among(bodies, from) <= hits_among(bodies, upto),
    decreases upto - from,
{
    if from < upto {
        lemma_hits_among_grows(bodies, from, upto - 1);
    }
}

/// A box built from a centre and half-extents has that centre, and the
/// magnitudes of the half-extents as its half-extents, whatever their signs.
pub proof fn law_new_keeps_center_and_half_extents(center: Vec3, half_extents: Vec3)
    requires
        center.bounded(),
        half_extents.bounded(),
    ensures
        LLAabb3d::spec_new(center, half_extents).spec_center() == center,
        LLAabb3d::spec_new(center, half_extents).spec_half_extents() == half_extents.spec_abs(),
        LLAabb3d::spec_new(center, half_extents).wf(),
{
}

/// Intersection does not depend on the order of the two boxes.
pub proof fn law_intersects_symmetric(a: LLAabb3d, b: LLAabb3d)
    ensures
        a.spec_intersects(b) == b.spec_intersects(a),
{
}

/// Two boxes that share a point intersect. A shared face, edge or corner is
/// such a point, so boxes that only touch do intersect.
pub proof fn law_shared_point_intersects(a: LLAabb3d, b: LLAabb3d, p: Vec3)
    requires
        a.contains(p),
        b.contains(p),
    ensures
        a.spec_intersects(b),
{
}

/// Two ordered boxes that intersect share a point: the corner made of the
/// larger of the two minima on each axis.
pub proof fn law_intersecting_boxes_share_point(a: LLAabb3d, b: LLAabb3d) -> (p: Vec3)
    requires
        a.min.x <= a.max.x && a.min.y <= a.max.y && a.min.z <= a.max.z,
        b.min.x <= b.max.x && b.min.y <= b.max.y && b.min.z <= b.max.z,
        a.spec_intersects(b),
    ensures
        a.contains(p),
        b.contains(p),
{
    Vec3 {
        x: if a.min.x >= b.min.x { a.min.x } else { b.min.x },
        y: if a.min.y >= b.min.y { a.min.y } else { b.min.y },
        z: if a.min.z >= b.min.z { a.min.z } else { b.min.z },
    }
}

/// Boxes with a gap between them along any one axis do not intersect.
pub proof fn law_gap_on_one_axis_separates(a: LLAabb3d, b: LLAabb3d)
    requires
        a.max.x < b.min.x || b.max.x < a.min.x || a.max.y < b.min.y || b.max.y < a.min.y
            || a.max.z < b.min.z || b.max.z < a.min.z,
    ensures
        !a.spec_intersects(b),
{
}

/// Moving a box to a new centre keeps its extents and its half-extents,
/// whether its sizes are even or odd, and puts its centre there.
pub proof fn law_update_center_keeps_size(aabb: LLAabb3d, new_center: Vec3)
    requires
        aabb.wf(),
        new_center.bounded(),
    ensures
        aabb.spec_recentered(new_center).spec_extents() == aabb.spec_extents(),
        aabb.spec_recentered(new_center).spec_half_extents() == aabb.spec_half_extents(),
        aabb.spec_recentered(new_center).spec_center() == new_center,
        aabb.spec_recentered(new_center).wf(),
{
}

} // verus!
