//! Hitbox primitives and the separating-axis intersection tests.
//!
//! An `OBB` is an oriented bounding box: a rectangle described by its
//! center, half-extents and a fixed-point rotation. A `Circle` is a center
//! and radius. `Hitbox` unifies both under the one dispatching test
//! [`hitbox_intersects`].
//!
//! All tests run in exact integer arithmetic. Corner coordinates are
//! produced in rotation subunits (world units times [`ROT_ONE`]) so that
//! rotating never rounds, and a comparison against `radius * |axis|` is
//! decided by comparing squares, so no square root is ever taken. Axes are
//! left unnormalized: interval overlap on an axis does not depend on the
//! axis's length.

use vstd::prelude::*;

verus! {

use crate::geom::{Vec2, Rot, ROT_ONE, COORD_LIMIT, EXTENT_LIMIT, div_floor, lemma_mul_bound};
use vstd::array::ArrayAdditionalExecFns;

/// Largest magnitude of a corner coordinate in rotation subunits:
/// `COORD_LIMIT * ROT_ONE` for the centered part plus one rotated
/// half-extent (`ROT_ONE * EXTENT_LIMIT`) in each rotation-matrix entry.
pub const CORNER_BOUND: i64 = 872415232;

/// Largest magnitude of a separating-axis component (`2 * CORNER_BOUND`):
/// an axis is a corner difference turned by a quarter turn.
pub const AXIS_BOUND: i64 = 1744830464;

/// Bound on a corner projection: two products of a corner coordinate and
/// an axis component, each below `CORNER_BOUND * AXIS_BOUND`.
pub const PROJ_BOUND: i64 = 4000000000000000000;

/// An oriented bounding box in world space.
#[derive(Clone, Copy, Debug, PartialEq, Eq, Structural)]
pub struct OBB {
    pub center: Vec2,
    pub half: Vec2,
    pub rotation: Rot,
}

/// A circular hit-region in world space.
#[derive(Clone, Copy, Debug, PartialEq, Eq, Structural)]
pub struct Circle {
    pub center: Vec2,
    pub radius: i64,
}

/// The uniform hit-region type every collidable entity exposes.
#[derive(Clone, Copy, Debug, PartialEq, Eq, Structural)]
pub enum Hitbox {
    OBB(OBB),
    Circle(Circle),
}

impl OBB {
    /// Center inside the world, half-extents nonnegative and bounded,
    /// rotation components within one fixed-point unit.
    pub open spec fn wf(self) -> bool {
        &&& self.center.in_world()
        &&& 0 <= self.half.x <= EXTENT_LIMIT
        &&& 0 <= self.half.y <= EXTENT_LIMIT
        &&& self.rotation.wf()
    }

    /// Checked constructor: fails fast on out-of-range inputs instead of
    /// letting them reach the intersection arithmetic.
    pub fn new(center: Vec2, half: Vec2, rotation: Rot) -> (r: Option<OBB>)
        ensures
            r is Some <==> (OBB { center, half, rotation }).wf(),
            r is Some ==> r->0 == (OBB { center, half, rotation }),
    {
        let obb = OBB { center, half, rotation };
        if obb.is_wf() {
            Some(obb)
        } else {
            None
        }
    }

    /// Runtime check matching `wf`.
    pub fn is_wf(&self) -> (r: bool)
        ensures
            r == self.wf(),
    {
        self.center.is_in_world() && 0 <= self.half.x && self.half.x <= EXTENT_LIMIT
            && 0 <= self.half.y && self.half.y <= EXTENT_LIMIT && self.rotation.is_wf()
    }
}

impl Circle {
    /// Center inside the world and radius nonnegative and bounded.
    pub open spec fn wf(self) -> bool {
        &&& self.center.in_world()
        &&& 0 <= self.radius <= EXTENT_LIMIT
    }

    /// Checked constructor: fails fast on a negative or oversized radius.
    pub fn new(center: Vec2, radius: i64) -> (r: Option<Circle>)
        ensures
            r is Some <==> (Circle { center, radius }).wf(),
            r is Some ==> r->0 == (Circle { center, radius }),
    {
        let c = Circle { center, radius };
        if c.is_wf() {
            Some(c)
        } else {
            None
        }
    }

    /// Runtime check matching `wf`.
    pub fn is_wf(&self) -> (r: bool)
        ensures
            r == self.wf(),
    {
        self.center.is_in_world() && 0 <= self.radius && self.radius <= EXTENT_LIMIT
    }
}

impl Hitbox {
    pub open spec fn wf(self) -> bool {
        match self {
            Hitbox::OBB(o) => o.wf(),
            Hitbox::Circle(c) => c.wf(),
        }
    }

    /// Runtime check matching `wf`.
    pub fn is_wf(&self) -> (r: bool)
        ensures
            r == self.wf(),
    {
        match self {
            Hitbox::OBB(o) => o.is_wf(),
            Hitbox::Circle(c) => c.is_wf(),
        }
    }
}

/// The capability every collidable entity implements: it can produce its
/// current world-space hit-region on demand. No hitbox is stored; it is
/// recomputed fresh from the entity's transform at every query.
pub trait Collidable {
    /// The entity's state admits a hitbox (its transform is in range).
    spec fn hitbox_wf(&self) -> bool;

    /// The hitbox the entity exposes, as a mathematical value.
    spec fn spec_hitbox(&self) -> Hitbox;

    /// Compute the entity's current world-space hitbox.
    fn hitbox(&self) -> (r: Hitbox)
        requires
            self.hitbox_wf(),
        ensures
            r == self.spec_hitbox(),
            r.wf(),
    ;
}

/// Describes a body hitbox (for example a character torso), independent of
/// any sprite rotation: the hitbox's pixel size and the offset from the
/// entity's logical anchor to the hitbox center.
#[derive(Clone, Copy, Debug, PartialEq, Eq, Structural)]
pub struct HitboxParams {
    pub size: Vec2,
    pub offset_frame: Vec2,
}

impl HitboxParams {
    /// Size nonnegative and bounded; offset bounded.
    pub open spec fn wf(self) -> bool {
        &&& 0 <= self.size.x <= 2 * EXTENT_LIMIT
        &&& 0 <= self.size.y <= 2 * EXTENT_LIMIT
        &&& -EXTENT_LIMIT <= self.offset_frame.x <= EXTENT_LIMIT
        &&& -EXTENT_LIMIT <= self.offset_frame.y <= EXTENT_LIMIT
    }

    /// The axis-aligned body hitbox of an entity anchored at `anchor`:
    /// centered at the anchor shifted by `offset_frame`, with half the
    /// stored size as half-extents and no rotation.
    pub open spec fn spec_hitbox_at(self, anchor: Vec2) -> OBB {
        OBB {
            center: Vec2 {
                x: (anchor.x + self.offset_frame.x) as i64,
                y: (anchor.y + self.offset_frame.y) as i64,
            },
            half: Vec2 { x: (self.size.x as int / 2) as i64, y: (self.size.y as int / 2) as i64 },
            rotation: Rot::spec_zero(),
        }
    }

    /// Derive the body hitbox for an entity anchored at `anchor`.
    pub fn hitbox_at(&self, anchor: Vec2) -> (r: Hitbox)
        requires
            self.wf(),
            -(COORD_LIMIT - EXTENT_LIMIT) <= anchor.x <= COORD_LIMIT - EXTENT_LIMIT,
            -(COORD_LIMIT - EXTENT_LIMIT) <= anchor.y <= COORD_LIMIT - EXTENT_LIMIT,
        ensures
            r == Hitbox::OBB(self.spec_hitbox_at(anchor)),
            r.wf(),
    {
        let center = Vec2 { x: anchor.x + self.offset_frame.x, y: anchor.y + self.offset_frame.y };
        let half = Vec2 { x: div_floor(self.size.x, 2), y: div_floor(self.size.y, 2) };
        Hitbox::OBB(OBB { center, half, rotation: Rot::zero() })
    }
}

/// Local x-coordinate of corner `i` (order: counter-clockwise from
/// `(-half.x, -half.y)`).
pub open spec fn corner_local_x(o: OBB, i: int) -> int {
    if i == 1 || i == 2 {
        o.half.x as int
    } else {
        -(o.half.x as int)
    }
}

/// Local y-coordinate of corner `i`.
pub open spec fn corner_local_y(o: OBB, i: int) -> int {
    if i == 2 || i == 3 {
        o.half.y as int
    } else {
        -(o.half.y as int)
    }
}

/// World x-coordinate of corner `i`, in rotation subunits.
pub open spec fn corner_x(o: OBB, i: int) -> int {
    o.center.x * ROT_ONE + o.rotation.cos_q * corner_local_x(o, i) - o.rotation.sin_q
        * corner_local_y(o, i)
}

/// World y-coordinate of corner `i`, in rotation subunits.
pub open spec fn corner_y(o: OBB, i: int) -> int {
    o.center.y * ROT_ONE + o.rotation.sin_q * corner_local_x(o, i) + o.rotation.cos_q
        * corner_local_y(o, i)
}

/// x-component of separating axis `k` of a box: the outward normal of the
/// edge from corner 0 to corner 1 (`k == 0`) or corner 0 to corner 3
/// (`k == 1`). Unnormalized.
pub open spec fn axis_x(o: OBB, k: int) -> int {
    if k == 0 {
        -(corner_y(o, 1) - corner_y(o, 0))
    } else {
        -(corner_y(o, 3) - corner_y(o, 0))
    }
}

/// y-component of separating axis `k` of a box.
pub open spec fn axis_y(o: OBB, k: int) -> int {
    if k == 0 {
        corner_x(o, 1) - corner_x(o, 0)
    } else {
        corner_x(o, 3) - corner_x(o, 0)
    }
}

/// A point's scalar projection onto an axis (dot product).
pub open spec fn proj_v(p: Vec2, ax: int, ay: int) -> int {
    p.x * ax + p.y * ay
}

/// Corner `i`'s scalar projection onto an axis.
pub open spec fn proj_corner(o: OBB, i: int, ax: int, ay: int) -> int {
    corner_x(o, i) * ax + corner_y(o, i) * ay
}

pub open spec fn min4(a: int, b: int, c: int, d: int) -> int {
    let m1 = if a <= b { a } else { b };
    let m2 = if c <= d { c } else { d };
    if m1 <= m2 { m1 } else { m2 }
}

pub open spec fn max4(a: int, b: int, c: int, d: int) -> int {
    let m1 = if a >= b { a } else { b };
    let m2 = if c >= d { c } else { d };
    if m1 >= m2 { m1 } else { m2 }
}

/// Low end of a box's projection interval on an axis.
pub open spec fn proj_min(o: OBB, ax: int, ay: int) -> int {
    min4(proj_corner(o, 0, ax, ay), proj_corner(o, 1, ax, ay), proj_corner(o, 2, ax, ay),
        proj_corner(o, 3, ax, ay))
}

/// High end of a box's projection interval on an axis.
pub open spec fn proj_max(o: OBB, ax: int, ay: int) -> int {
    max4(proj_corner(o, 0, ax, ay), proj_corner(o, 1, ax, ay), proj_corner(o, 2, ax, ay),
        proj_corner(o, 3, ax, ay))
}

/// Closed-interval overlap: touching intervals count as overlapping.
pub open spec fn spec_intervals_overlap(amin: int, amax: int, bmin: int, bmax: int) -> bool {
    amax >= bmin && bmax >= amin
}

/// The two boxes' projection intervals on one axis overlap.
pub open spec fn obb_overlap_on_axis(a: OBB, b: OBB, ax: int, ay: int) -> bool {
    spec_intervals_overlap(proj_min(a, ax, ay), proj_max(a, ax, ay), proj_min(b, ax, ay),
        proj_max(b, ax, ay))
}

/// Separating-axis test for two boxes: they intersect exactly when no axis
/// from either box's two edge normals separates their projections.
pub open spec fn spec_obb_intersects_obb(a: OBB, b: OBB) -> bool {
    &&& obb_overlap_on_axis(a, b, axis_x(a, 0), axis_y(a, 0))
    &&& obb_overlap_on_axis(a, b, axis_x(a, 1), axis_y(a, 1))
    &&& obb_overlap_on_axis(a, b, axis_x(b, 0), axis_y(b, 0))
    &&& obb_overlap_on_axis(a, b, axis_x(b, 1), axis_y(b, 1))
}

/// Both coordinates within the corner range.
pub open spec fn pt_in_corner_range(v: Vec2) -> bool {
    -CORNER_BOUND <= v.x <= CORNER_BOUND && -CORNER_BOUND <= v.y <= CORNER_BOUND
}

/// Both coordinates within the axis range.
pub open spec fn axis_in_range(v: Vec2) -> bool {
    -AXIS_BOUND <= v.x <= AXIS_BOUND && -AXIS_BOUND <= v.y <= AXIS_BOUND
}

impl OBB {
    /// The box's four world-space corners in rotation subunits (world
    /// coordinates times `ROT_ONE`), counter-clockwise from the corner at
    /// local `(-half.x, -half.y)`. Kept in subunits so that no corner is
    /// ever rounded; every consumer of corners is scale-free.
    pub fn corners(&self) -> (r: [Vec2; 4])
        requires
            self.wf(),
        ensures
            r@.len() == 4,
            r@[0].x == corner_x(*self, 0) && r@[0].y == corner_y(*self, 0),
            r@[1].x == corner_x(*self, 1) && r@[1].y == corner_y(*self, 1),
            r@[2].x == corner_x(*self, 2) && r@[2].y == corner_y(*self, 2),
            r@[3].x == corner_x(*self, 3) && r@[3].y == corner_y(*self, 3),
            pt_in_corner_range(r@[0]) && pt_in_corner_range(r@[1]) && pt_in_corner_range(r@[2])
                && pt_in_corner_range(r@[3]),
    {
        let c = self.rotation.cos_q;
        let s = self.rotation.sin_q;
        let hx = self.half.x;
        let hy = self.half.y;
        proof {
            lemma_mul_bound(c as int, hx as int, ROT_ONE as int, EXTENT_LIMIT as int);
            lemma_mul_bound(s as int, hx as int, ROT_ONE as int, EXTENT_LIMIT as int);
            lemma_mul_bound(c as int, hy as int, ROT_ONE as int, EXTENT_LIMIT as int);
            lemma_mul_bound(s as int, hy as int, ROT_ONE as int, EXTENT_LIMIT as int);
        }
        let chx = c * hx;
        let shx = s * hx;
        let chy = c * hy;
        let shy = s * hy;
        let bx = self.center.x * ROT_ONE;
        let by = self.center.y * ROT_ONE;
        proof {
            assert(c * (-(hx as int)) == -(c * hx) && s * (-(hx as int)) == -(s * hx) && c * (-(
            hy as int)) == -(c * hy) && s * (-(hy as int)) == -(s * hy)) by (nonlinear_arith);
        }
        let mut r: [Vec2; 4] = [Vec2 { x: 0, y: 0 }; 4];
        r[0] = Vec2 { x: bx - chx + shy, y: by - shx - chy };
        r[1] = Vec2 { x: bx + chx + shy, y: by + shx - chy };
        r[2] = Vec2 { x: bx + chx - shy, y: by + shx + chy };
        r[3] = Vec2 { x: bx - chx - shy, y: by - shx + chy };
        r
    }
}

/// The two unique edge-normal axes of a box, from its corner array: the
/// outward normals of the edges leaving corner 0. Opposite edges are
/// parallel, so two axes suffice. Unnormalized on purpose: interval overlap
/// is invariant under the axis's scale.
pub fn obb_axes(corners: &[Vec2; 4]) -> (r: [Vec2; 2])
    requires
        pt_in_corner_range(corners@[0]),
        pt_in_corner_range(corners@[1]),
        pt_in_corner_range(corners@[3]),
    ensures
        r@.len() == 2,
        r@[0].x == -(corners@[1].y - corners@[0].y),
        r@[0].y == corners@[1].x - corners@[0].x,
        r@[1].x == -(corners@[3].y - corners@[0].y),
        r@[1].y == corners@[3].x - corners@[0].x,
        axis_in_range(r@[0]) && axis_in_range(r@[1]),
{
    let e0x = corners[1].x - corners[0].x;
    let e0y = corners[1].y - corners[0].y;
    let e1x = corners[3].x - corners[0].x;
    let e1y = corners[3].y - corners[0].y;
    let mut r: [Vec2; 2] = [Vec2 { x: 0, y: 0 }; 2];
    r[0] = Vec2 { x: -e0y, y: e0x };
    r[1] = Vec2 { x: -e1y, y: e1x };
    r
}

/// A bounded dot product.
fn dot_in_range(p: Vec2, a: Vec2) -> (r: i64)
    requires
        pt_in_corner_range(p),
        axis_in_range(a),
    ensures
        r == proj_v(p, a.x as int, a.y as int),
        -PROJ_BOUND <= r <= PROJ_BOUND,
{
    proof {
        // The literal bounds are CORNER_BOUND and AXIS_BOUND.
        lemma_mul_bound(p.x as int, a.x as int, 872415232, 1744830464);
        lemma_mul_bound(p.y as int, a.y as int, 872415232, 1744830464);
    }
    p.x * a.x + p.y * a.y
}

/// Projection interval of four points on an axis.
pub fn project_points_on_axis(points: &[Vec2; 4], axis: Vec2) -> (r: (i64, i64))
    requires
        pt_in_corner_range(points@[0]),
        pt_in_corner_range(points@[1]),
        pt_in_corner_range(points@[2]),
        pt_in_corner_range(points@[3]),
        axis_in_range(axis),
    ensures
        r.0 == min4(proj_v(points@[0], axis.x as int, axis.y as int),
            proj_v(points@[1], axis.x as int, axis.y as int),
            proj_v(points@[2], axis.x as int, axis.y as int),
            proj_v(points@[3], axis.x as int, axis.y as int)),
        r.1 == max4(proj_v(points@[0], axis.x as int, axis.y as int),
            proj_v(points@[1], axis.x as int, axis.y as int),
            proj_v(points@[2], axis.x as int, axis.y as int),
            proj_v(points@[3], axis.x as int, axis.y as int)),
        -PROJ_BOUND <= r.0 <= PROJ_BOUND,
        -PROJ_BOUND <= r.1 <= PROJ_BOUND,
{
    let d0 = dot_in_range(points[0], axis);
    let d1 = dot_in_range(points[1], axis);
    let d2 = dot_in_range(points[2], axis);
    let d3 = dot_in_range(points[3], axis);
    let mut mn = d0;
    let mut mx = d0;
    if d1 < mn {
        mn = d1;
    }
    if d1 > mx {
        mx = d1;
    }
    if d2 < mn {
        mn = d2;
    }
    if d2 > mx {
        mx = d2;
    }
    if d3 < mn {
        mn = d3;
    }
    if d3 > mx {
        mx = d3;
    }
    (mn, mx)
}

/// Closed-interval overlap test: touching counts as overlapping.
pub fn intervals_overlap(a: (i64, i64), b: (i64, i64)) -> (r: bool)
    ensures
        r == spec_intervals_overlap(a.0 as int, a.1 as int, b.0 as int, b.1 as int),
{
    a.1 >= b.0 && b.1 >= a.0
}

/// Classic separating-axis test for two oriented boxes: project both
/// corner sets onto each box's two edge normals; the boxes intersect
/// exactly when every one of the up-to-four axes shows overlapping
/// intervals.
pub fn obb_intersects_obb(a: &OBB, b: &OBB) -> (r: bool)
    requires
        a.wf(),
        b.wf(),
    ensures
        r == spec_obb_intersects_obb(*a, *b),
{
    let ca = a.corners();
    let cb = b.corners();
    let axes_a = obb_axes(&ca);
    let axes_b = obb_axes(&cb);

    let pa0 = project_points_on_axis(&ca, axes_a[0]);
    let pb0 = project_points_on_axis(&cb, axes_a[0]);
    let o0 = intervals_overlap(pa0, pb0);

    let pa1 = project_points_on_axis(&ca, axes_a[1]);
    let pb1 = project_points_on_axis(&cb, axes_a[1]);
    let o1 = intervals_overlap(pa1, pb1);

    let pa2 = project_points_on_axis(&ca, axes_b[0]);
    let pb2 = project_points_on_axis(&cb, axes_b[0]);
    let o2 = intervals_overlap(pa2, pb2);

    let pa3 = project_points_on_axis(&ca, axes_b[1]);
    let pb3 = project_points_on_axis(&cb, axes_b[1]);
    let o3 = intervals_overlap(pa3, pb3);

    o0 && o1 && o2 && o3
}

/// `a <= r * sqrt(s)`, for `r >= 0` and `s >= 0`, phrased without the
/// square root: either `a` is not positive, or `a * a <= r * r * s`.
pub open spec fn spec_le_times_sqrt(a: int, r: int, s: int) -> bool {
    a <= 0 || a * a <= r * r * s
}

/// Exact comparison of `a` against `r * sqrt(s)` by squaring.
fn le_times_sqrt(a: i64, r: i64, s: i128) -> (b: bool)
    requires
        0 <= r <= 100_000_000,
        0 <= s <= 10_000_000_000_000_000_000,
    ensures
        b == spec_le_times_sqrt(a as int, r as int, s as int),
{
    if a <= 0 {
        true
    } else {
        proof {
            lemma_mul_bound(a as int, a as int, 0x7fff_ffff_ffff_ffff, 0x7fff_ffff_ffff_ffff);
            lemma_mul_bound(r as int, r as int, 100_000_000, 100_000_000);
            lemma_mul_bound((r * r) as int, s as int, 10_000_000_000_000_000,
                10_000_000_000_000_000_000);
        }
        let aa = (a as i128) * (a as i128);
        let rr = (r as i128) * (r as i128);
        aa <= rr * s
    }
}

/// The projection interval `[mn, mx]` of a box (in subunit scale) overlaps
/// the circle interval `[cq - rk * sqrt(s), cq + rk * sqrt(s)]`, where `cq`
/// is the circle center's projection brought to the same scale, `rk` is the
/// radius in subunits and `s` the squared axis length.
pub open spec fn spec_circle_interval_overlap(mn: int, mx: int, cq: int, rk: int, s: int) -> bool {
    spec_le_times_sqrt(mn - cq, rk, s) && spec_le_times_sqrt(cq - mx, rk, s)
}

/// OBB-level form of the circle overlap test on one axis.
pub open spec fn spec_circle_on_axis(o: OBB, c: Circle, ax: int, ay: int) -> bool {
    spec_circle_interval_overlap(
        proj_min(o, ax, ay),
        proj_max(o, ax, ay),
        ROT_ONE * (c.center.x * ax + c.center.y * ay),
        c.radius * ROT_ONE,
        ax * ax + ay * ay,
    )
}

/// Overlap test of a box's corner set against a circle on one axis. The
/// corners are in rotation subunits, so the circle's center projection is
/// scaled by `ROT_ONE` to match and the radius term is `radius * ROT_ONE`
/// times the axis length.
pub fn obb_circle_overlap_on_axis(corners: &[Vec2; 4], circle: &Circle, axis: Vec2) -> (r: bool)
    requires
        pt_in_corner_range(corners@[0]),
        pt_in_corner_range(corners@[1]),
        pt_in_corner_range(corners@[2]),
        pt_in_corner_range(corners@[3]),
        circle.wf(),
        axis_in_range(axis),
    ensures
        r == spec_circle_interval_overlap(
            min4(proj_v(corners@[0], axis.x as int, axis.y as int),
                proj_v(corners@[1], axis.x as int, axis.y as int),
                proj_v(corners@[2], axis.x as int, axis.y as int),
                proj_v(corners@[3], axis.x as int, axis.y as int)),
            max4(proj_v(corners@[0], axis.x as int, axis.y as int),
                proj_v(corners@[1], axis.x as int, axis.y as int),
                proj_v(corners@[2], axis.x as int, axis.y as int),
                proj_v(corners@[3], axis.x as int, axis.y as int)),
            ROT_ONE * proj_v(circle.center, axis.x as int, axis.y as int),
            circle.radius * ROT_ONE,
            (axis.x as int) * (axis.x as int) + (axis.y as int) * (axis.y as int),
        ),
{
    let (mn, mx) = project_points_on_axis(corners, axis);
    proof {
        // A world coordinate (COORD_LIMIT) times an axis component
        // (AXIS_BOUND), and the two axis squares.
        lemma_mul_bound(circle.center.x as int, axis.x as int, 196608, 1744830464);
        lemma_mul_bound(circle.center.y as int, axis.y as int, 196608, 1744830464);
        lemma_mul_bound(axis.x as int, axis.x as int, 1744830464, 1744830464);
        lemma_mul_bound(axis.y as int, axis.y as int, 1744830464, 1744830464);
    }
    let cdot = dot_in_range(circle.center, axis);
    proof {
        // Scaling the center projection by ROT_ONE must stay in range.
        assert(-700000000000000 <= cdot <= 700000000000000);
    }
    let cq = ROT_ONE * cdot;
    let rk = circle.radius * ROT_ONE;
    let sx = (axis.x as i128) * (axis.x as i128);
    let sy = (axis.y as i128) * (axis.y as i128);
    let s = sx + sy;
    proof {
        assert(sx == (axis.x as int) * (axis.x as int));
        assert(sy == (axis.y as int) * (axis.y as int));
        assert((axis.x as int) * (axis.x as int) >= 0) by (nonlinear_arith);
        assert((axis.y as int) * (axis.y as int) >= 0) by (nonlinear_arith);
    }
    let lo = le_times_sqrt(mn - cq, rk, s);
    let hi = le_times_sqrt(cq - mx, rk, s);
    lo && hi
}

/// Floor-rounded x-coordinate of the query point in the box's local frame.
pub open spec fn local_coord_x(o: OBB, p: Vec2) -> int {
    (o.rotation.cos_q * (p.x - o.center.x) + o.rotation.sin_q * (p.y - o.center.y)) / (
    ROT_ONE as int)
}

/// Floor-rounded y-coordinate of the query point in the box's local frame.
pub open spec fn local_coord_y(o: OBB, p: Vec2) -> int {
    (o.rotation.cos_q * (p.y - o.center.y) - o.rotation.sin_q * (p.x - o.center.x)) / (
    ROT_ONE as int)
}

pub open spec fn clamp_to(v: int, h: int) -> int {
    if v < -h {
        -h
    } else if v > h {
        h
    } else {
        v
    }
}

/// x-coordinate of the closest point of the box to `p`: the local
/// coordinates clamped to the half-extents and rotated back.
pub open spec fn spec_closest_x(o: OBB, p: Vec2) -> int {
    o.center.x + (o.rotation.cos_q * clamp_to(local_coord_x(o, p), o.half.x as int)
        - o.rotation.sin_q * clamp_to(local_coord_y(o, p), o.half.y as int)) / (ROT_ONE as int)
}

/// y-coordinate of the closest point of the box to `p`.
pub open spec fn spec_closest_y(o: OBB, p: Vec2) -> int {
    o.center.y + (o.rotation.sin_q * clamp_to(local_coord_x(o, p), o.half.x as int)
        + o.rotation.cos_q * clamp_to(local_coord_y(o, p), o.half.y as int)) / (ROT_ONE as int)
}

/// Closest point of a box to a query point, in world units: the point is
/// carried into the box's local frame by the inverse rotation, clamped to
/// the half-extents, and carried back. Each rotation application rounds
/// toward negative infinity by one subunit at most.
pub fn closest_point_on_obb(obb: &OBB, point: Vec2) -> (r: Vec2)
    requires
        obb.wf(),
        point.in_world(),
    ensures
        r.x == spec_closest_x(*obb, point),
        r.y == spec_closest_y(*obb, point),
        -100_000_000 <= r.x <= 100_000_000,
        -100_000_000 <= r.y <= 100_000_000,
{
    let c = obb.rotation.cos_q;
    let s = obb.rotation.sin_q;
    let dx = point.x - obb.center.x;
    let dy = point.y - obb.center.y;
    proof {
        lemma_mul_bound(c as int, dx as int, 4096, 400000);
        lemma_mul_bound(s as int, dx as int, 4096, 400000);
        lemma_mul_bound(c as int, dy as int, 4096, 400000);
        lemma_mul_bound(s as int, dy as int, 4096, 400000);
    }
    let lx = div_floor(c * dx + s * dy, ROT_ONE);
    let ly = div_floor(c * dy - s * dx, ROT_ONE);
    let hx = obb.half.x;
    let hy = obb.half.y;
    let cxl = if lx < -hx {
        -hx
    } else if lx > hx {
        hx
    } else {
        lx
    };
    let cyl = if ly < -hy {
        -hy
    } else if ly > hy {
        hy
    } else {
        ly
    };
    proof {
        lemma_mul_bound(c as int, cxl as int, 4096, 8192);
        lemma_mul_bound(s as int, cxl as int, 4096, 8192);
        lemma_mul_bound(c as int, cyl as int, 4096, 8192);
        lemma_mul_bound(s as int, cyl as int, 4096, 8192);
    }
    let rx = div_floor(c * cxl - s * cyl, ROT_ONE);
    let ry = div_floor(s * cxl + c * cyl, ROT_ONE);
    Vec2 { x: obb.center.x + rx, y: obb.center.y + ry }
}

/// Separating-axis test between a box and a circle: the box's two edge
/// normals, plus the axis from the circle's center to the closest point of
/// the box. When the center lies exactly on the box (the axis would be the
/// zero vector), that last axis is skipped: it is then undefined and
/// unnecessary.
pub open spec fn spec_obb_intersects_circle(o: OBB, c: Circle) -> bool {
    let wx = c.center.x - spec_closest_x(o, c.center);
    let wy = c.center.y - spec_closest_y(o, c.center);
    &&& spec_circle_on_axis(o, c, axis_x(o, 0), axis_y(o, 0))
    &&& spec_circle_on_axis(o, c, axis_x(o, 1), axis_y(o, 1))
    &&& ((wx == 0 && wy == 0) || spec_circle_on_axis(o, c, wx, wy))
}

/// Combined separating-axis test between a box and a circle.
pub fn obb_intersects_circle(obb: &OBB, circle: &Circle) -> (r: bool)
    requires
        obb.wf(),
        circle.wf(),
    ensures
        r == spec_obb_intersects_circle(*obb, *circle),
{
    let cs = obb.corners();
    let axes = obb_axes(&cs);
    let t0 = obb_circle_overlap_on_axis(&cs, circle, axes[0]);
    if !t0 {
        return false;
    }
    let t1 = obb_circle_overlap_on_axis(&cs, circle, axes[1]);
    if !t1 {
        return false;
    }
    let closest = closest_point_on_obb(obb, circle.center);
    let wx = circle.center.x - closest.x;
    let wy = circle.center.y - closest.y;
    if wx == 0 && wy == 0 {
        true
    } else {
        obb_circle_overlap_on_axis(&cs, circle, Vec2 { x: wx, y: wy })
    }
}

pub open spec fn spec_dist2(a: Vec2, b: Vec2) -> int {
    (a.x - b.x) * (a.x - b.x) + (a.y - b.y) * (a.y - b.y)
}

/// Two circles intersect exactly when the distance between their centers
/// is at most the sum of the two radii. The rule is symmetric in the two
/// circles, and touching circles count as intersecting, matching the
/// closed intervals of the axis tests.
pub open spec fn spec_circle_intersects_circle(a: Circle, b: Circle) -> bool {
    spec_dist2(a.center, b.center) <= (a.radius + b.radius) * (a.radius + b.radius)
}

/// Distance-threshold test for two circles, by comparing squares.
pub fn circle_intersects_circle(a: &Circle, b: &Circle) -> (r: bool)
    requires
        a.wf(),
        b.wf(),
    ensures
        r == spec_circle_intersects_circle(*a, *b),
{
    let dx = a.center.x - b.center.x;
    let dy = a.center.y - b.center.y;
    proof {
        lemma_mul_bound(dx as int, dx as int, 400000, 400000);
        lemma_mul_bound(dy as int, dy as int, 400000, 400000);
    }
    let dist2 = dx * dx + dy * dy;
    let rsum = a.radius + b.radius;
    proof {
        lemma_mul_bound(rsum as int, rsum as int, 16384, 16384);
    }
    dist2 <= rsum * rsum
}

/// What the dispatching test decides for a pair of well-formed hitboxes.
pub open spec fn spec_hitbox_intersects(a: Hitbox, b: Hitbox) -> bool {
    match (a, b) {
        (Hitbox::OBB(x), Hitbox::OBB(y)) => spec_obb_intersects_obb(x, y),
        (Hitbox::OBB(x), Hitbox::Circle(y)) => spec_obb_intersects_circle(x, y),
        (Hitbox::Circle(x), Hitbox::OBB(y)) => spec_obb_intersects_circle(y, x),
        (Hitbox::Circle(x), Hitbox::Circle(y)) => spec_circle_intersects_circle(x, y),
    }
}

/// What [`hitbox_intersects`] returns on any pair at all: a malformed
/// hitbox never intersects anything.
pub open spec fn spec_hitbox_intersects_checked(a: Hitbox, b: Hitbox) -> bool {
    a.wf() && b.wf() && spec_hitbox_intersects(a, b)
}

/// The one dispatch entry point over the tagged hitbox pair. Total: a
/// malformed hitbox (out-of-range coordinate, negative radius or
/// half-extent) is answered with a safe `false` instead of reaching the
/// axis arithmetic.
pub fn hitbox_intersects(a: &Hitbox, b: &Hitbox) -> (r: bool)
    ensures
        r == spec_hitbox_intersects_checked(*a, *b),
{
    if !a.is_wf() || !b.is_wf() {
        return false;
    }
    match (a, b) {
        (Hitbox::OBB(x), Hitbox::OBB(y)) => obb_intersects_obb(x, y),
        (Hitbox::OBB(x), Hitbox::Circle(y)) => obb_intersects_circle(x, y),
        (Hitbox::Circle(x), Hitbox::OBB(y)) => obb_intersects_circle(y, x),
        (Hitbox::Circle(x), Hitbox::Circle(y)) => circle_intersects_circle(x, y),
    }
}

} // verus!
