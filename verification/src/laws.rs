//! Laws of the intersection tester, proved once over every input: the
//! dispatch is symmetric, the rotated test collapses to plain interval
//! overlap for unrotated boxes, and the decisions are unchanged when both
//! hitboxes move together.

use vstd::prelude::*;

verus! {

use crate::geom::{Vec2, Rot};
use crate::collision::{Hitbox, OBB, Circle, spec_hitbox_intersects, spec_hitbox_intersects_checked,
    spec_obb_intersects_obb, spec_obb_intersects_circle, spec_dist2, spec_intervals_overlap,
    obb_overlap_on_axis, proj_corner, proj_min, proj_max, corner_x, corner_y, axis_x, axis_y,
    spec_circle_on_axis, spec_closest_x, spec_closest_y, local_coord_x, local_coord_y};
use crate::weapon::{Weapon, spec_weapon_obb};

/// The intersection test does not depend on the order of its two
/// arguments: for every hitbox pair, swapping the pair swaps nothing.
pub proof fn lemma_intersects_symmetric(a: Hitbox, b: Hitbox)
    ensures
        spec_hitbox_intersects(a, b) == spec_hitbox_intersects(b, a),
        spec_hitbox_intersects_checked(a, b) == spec_hitbox_intersects_checked(b, a),
{
    match (a, b) {
        (Hitbox::OBB(x), Hitbox::OBB(y)) => {
            assert(spec_obb_intersects_obb(x, y) == spec_obb_intersects_obb(y, x));
        },
        (Hitbox::Circle(x), Hitbox::Circle(y)) => {
            assert((x.center.x - y.center.x) * (x.center.x - y.center.x) == (y.center.x
                - x.center.x) * (y.center.x - x.center.x)) by (nonlinear_arith);
            assert((x.center.y - y.center.y) * (x.center.y - y.center.y) == (y.center.y
                - x.center.y) * (y.center.y - x.center.y)) by (nonlinear_arith);
        },
        _ => {},
    }
}

/// Axis-aligned interval overlap of two unrotated boxes, on each
/// coordinate separately.
pub open spec fn spec_aabb_intersects(a: OBB, b: OBB) -> bool {
    &&& spec_intervals_overlap(
        a.center.x - a.half.x,
        a.center.x + a.half.x,
        b.center.x - b.half.x,
        b.center.x + b.half.x,
    )
    &&& spec_intervals_overlap(
        a.center.y - a.half.y,
        a.center.y + a.half.y,
        b.center.y - b.half.y,
        b.center.y + b.half.y,
    )
}

/// Under the zero rotation, every corner coordinate is just the center
/// plus or minus the half-extent, in subunits.
proof fn lemma_zero_rot_corners(o: OBB)
    requires
        o.rotation == Rot::spec_zero(),
    ensures
        corner_x(o, 0) == 4096 * (o.center.x - o.half.x),
        corner_x(o, 1) == 4096 * (o.center.x + o.half.x),
        corner_x(o, 2) == 4096 * (o.center.x + o.half.x),
        corner_x(o, 3) == 4096 * (o.center.x - o.half.x),
        corner_y(o, 0) == 4096 * (o.center.y - o.half.y),
        corner_y(o, 1) == 4096 * (o.center.y - o.half.y),
        corner_y(o, 2) == 4096 * (o.center.y + o.half.y),
        corner_y(o, 3) == 4096 * (o.center.y + o.half.y),
{
    let hx = o.half.x as int;
    let hy = o.half.y as int;
    assert(o.rotation.cos_q * hx == 4096 * hx && o.rotation.cos_q * (-hx) == -(4096 * hx)
        && o.rotation.cos_q * hy == 4096 * hy && o.rotation.cos_q * (-hy) == -(4096 * hy)
        && o.rotation.sin_q * hx == 0 && o.rotation.sin_q * (-hx) == 0 && o.rotation.sin_q * hy
        == 0 && o.rotation.sin_q * (-hy) == 0) by (nonlinear_arith)
        requires
            o.rotation.cos_q == 4096,
            o.rotation.sin_q == 0,
    ;
}

/// On the vertical axis `(0, f)` with `f > 0`, the separating-axis overlap
/// of two unrotated boxes is exactly their y-interval overlap.
proof fn lemma_aa_overlap_y(a: OBB, b: OBB, f: int)
    requires
        a.rotation == Rot::spec_zero(),
        b.rotation == Rot::spec_zero(),
        0 <= a.half.y,
        0 <= b.half.y,
        f > 0,
    ensures
        obb_overlap_on_axis(a, b, 0, f) == spec_intervals_overlap(
            a.center.y - a.half.y,
            a.center.y + a.half.y,
            b.center.y - b.half.y,
            b.center.y + b.half.y,
        ),
{
    lemma_zero_rot_corners(a);
    lemma_zero_rot_corners(b);
    let ylo_a = a.center.y - a.half.y;
    let yhi_a = a.center.y + a.half.y;
    let ylo_b = b.center.y - b.half.y;
    let yhi_b = b.center.y + b.half.y;
    assert(corner_y(a, 0) == 4096 * ylo_a && corner_y(a, 1) == 4096 * ylo_a && corner_y(a, 2)
        == 4096 * yhi_a && corner_y(a, 3) == 4096 * yhi_a);
    assert(corner_y(b, 0) == 4096 * ylo_b && corner_y(b, 1) == 4096 * ylo_b && corner_y(b, 2)
        == 4096 * yhi_b && corner_y(b, 3) == 4096 * yhi_b);
    assert((4096 * ylo_a) * f <= (4096 * yhi_a) * f && (4096 * ylo_b) * f <= (4096 * yhi_b) * f)
        by (nonlinear_arith)
        requires
            ylo_a <= yhi_a,
            ylo_b <= yhi_b,
            f > 0,
    ;
    assert(proj_min(a, 0, f) == (4096 * ylo_a) * f && proj_max(a, 0, f) == (4096 * yhi_a) * f);
    assert(proj_min(b, 0, f) == (4096 * ylo_b) * f && proj_max(b, 0, f) == (4096 * yhi_b) * f);
    assert(((4096 * yhi_a) * f >= (4096 * ylo_b) * f) == (yhi_a >= ylo_b)) by (nonlinear_arith)
        requires
            f > 0,
    ;
    assert(((4096 * yhi_b) * f >= (4096 * ylo_a) * f) == (yhi_b >= ylo_a)) by (nonlinear_arith)
        requires
            f > 0,
    ;
}

/// On the horizontal axis `(-g, 0)` with `g > 0`, the separating-axis
/// overlap of two unrotated boxes is exactly their x-interval overlap.
proof fn lemma_aa_overlap_x(a: OBB, b: OBB, g: int)
    requires
        a.rotation == Rot::spec_zero(),
        b.rotation == Rot::spec_zero(),
        0 <= a.half.x,
        0 <= b.half.x,
        g > 0,
    ensures
        obb_overlap_on_axis(a, b, -g, 0) == spec_intervals_overlap(
            a.center.x - a.half.x,
            a.center.x + a.half.x,
            b.center.x - b.half.x,
            b.center.x + b.half.x,
        ),
{
    lemma_zero_rot_corners(a);
    lemma_zero_rot_corners(b);
    let xlo_a = a.center.x - a.half.x;
    let xhi_a = a.center.x + a.half.x;
    let xlo_b = b.center.x - b.half.x;
    let xhi_b = b.center.x + b.half.x;
    assert(corner_x(a, 0) == 4096 * xlo_a && corner_x(a, 1) == 4096 * xhi_a && corner_x(a, 2)
        == 4096 * xhi_a && corner_x(a, 3) == 4096 * xlo_a);
    assert(corner_x(b, 0) == 4096 * xlo_b && corner_x(b, 1) == 4096 * xhi_b && corner_x(b, 2)
        == 4096 * xhi_b && corner_x(b, 3) == 4096 * xlo_b);
    assert((4096 * xhi_a) * (-g) <= (4096 * xlo_a) * (-g) && (4096 * xhi_b) * (-g) <= (4096
        * xlo_b) * (-g)) by (nonlinear_arith)
        requires
            xlo_a <= xhi_a,
            xlo_b <= xhi_b,
            g > 0,
    ;
    assert(proj_min(a, -g, 0) == (4096 * xhi_a) * (-g) && proj_max(a, -g, 0) == (4096 * xlo_a) * (
    -g));
    assert(proj_min(b, -g, 0) == (4096 * xhi_b) * (-g) && proj_max(b, -g, 0) == (4096 * xlo_b) * (
    -g));
    assert(((4096 * xlo_a) * (-g) >= (4096 * xhi_b) * (-g)) == (xlo_a <= xhi_b))
        by (nonlinear_arith)
        requires
            g > 0,
    ;
    assert(((4096 * xlo_b) * (-g) >= (4096 * xhi_a) * (-g)) == (xlo_b <= xhi_a))
        by (nonlinear_arith)
        requires
            g > 0,
    ;
}

/// For two boxes with rotation zero and positive half-extents, the
/// separating-axis test agrees with plain axis-aligned interval overlap.
/// (A box with a zero half-extent contributes a zero axis, on which no
/// separation can show, so the agreement asks for positive extents.)
pub proof fn lemma_axis_aligned_reduction(a: OBB, b: OBB)
    requires
        a.rotation == Rot::spec_zero(),
        b.rotation == Rot::spec_zero(),
        a.half.x > 0,
        a.half.y > 0,
        b.half.x > 0,
        b.half.y > 0,
    ensures
        spec_obb_intersects_obb(a, b) == spec_aabb_intersects(a, b),
{
    lemma_zero_rot_corners(a);
    lemma_zero_rot_corners(b);
    assert(axis_x(a, 0) == 0 && axis_y(a, 0) == 8192 * a.half.x);
    assert(axis_x(a, 1) == -(8192 * a.half.y) && axis_y(a, 1) == 0);
    assert(axis_x(b, 0) == 0 && axis_y(b, 0) == 8192 * b.half.x);
    assert(axis_x(b, 1) == -(8192 * b.half.y) && axis_y(b, 1) == 0);
    lemma_aa_overlap_y(a, b, 8192 * a.half.x);
    lemma_aa_overlap_y(a, b, 8192 * b.half.x);
    lemma_aa_overlap_x(a, b, 8192 * a.half.y);
    lemma_aa_overlap_x(a, b, 8192 * b.half.y);
}

/// A vector translated by `t`, as stored coordinates.
pub open spec fn spec_translate_vec(v: Vec2, t: Vec2) -> Vec2 {
    Vec2 { x: (v.x + t.x) as i64, y: (v.y + t.y) as i64 }
}

/// The translated coordinates stay representable.
pub open spec fn translate_fits_vec(v: Vec2, t: Vec2) -> bool {
    &&& -0x8000_0000_0000_0000 <= v.x + t.x <= 0x7fff_ffff_ffff_ffff
    &&& -0x8000_0000_0000_0000 <= v.y + t.y <= 0x7fff_ffff_ffff_ffff
}

/// A hitbox translated by `t`: only its center moves.
pub open spec fn spec_translate_hitbox(h: Hitbox, t: Vec2) -> Hitbox {
    match h {
        Hitbox::OBB(o) => Hitbox::OBB(
            OBB { center: spec_translate_vec(o.center, t), half: o.half, rotation: o.rotation },
        ),
        Hitbox::Circle(c) => Hitbox::Circle(
            Circle { center: spec_translate_vec(c.center, t), radius: c.radius },
        ),
    }
}

pub open spec fn translate_fits_hitbox(h: Hitbox, t: Vec2) -> bool {
    match h {
        Hitbox::OBB(o) => translate_fits_vec(o.center, t),
        Hitbox::Circle(c) => translate_fits_vec(c.center, t),
    }
}

pub open spec fn spec_translate_obb(o: OBB, t: Vec2) -> OBB {
    OBB { center: spec_translate_vec(o.center, t), half: o.half, rotation: o.rotation }
}

/// Translating a box shifts every corner by the translation (in corner
/// subunits) and changes no axis.
proof fn lemma_translate_corner(o: OBB, t: Vec2, i: int)
    requires
        translate_fits_vec(o.center, t),
    ensures
        corner_x(spec_translate_obb(o, t), i) == corner_x(o, i) + 4096 * t.x,
        corner_y(spec_translate_obb(o, t), i) == corner_y(o, i) + 4096 * t.y,
{
    assert(spec_translate_vec(o.center, t).x == o.center.x + t.x);
    assert(spec_translate_vec(o.center, t).y == o.center.y + t.y);
}

/// A corner projection after translating the box: shifted by the
/// translation's own projection, in subunits.
proof fn lemma_translate_proj(o: OBB, t: Vec2, i: int, ax: int, ay: int)
    requires
        translate_fits_vec(o.center, t),
    ensures
        proj_corner(spec_translate_obb(o, t), i, ax, ay) == proj_corner(o, i, ax, ay) + 4096 * (t.x
            * ax) + 4096 * (t.y * ay),
{
    lemma_translate_corner(o, t, i);
    let px = corner_x(o, i);
    let py = corner_y(o, i);
    assert((px + 4096 * t.x) * ax + (py + 4096 * t.y) * ay == px * ax + py * ay + 4096 * (t.x * ax)
        + 4096 * (t.y * ay)) by (nonlinear_arith);
}

/// Both boxes shifted by the same translation overlap on an axis exactly
/// when the originals do.
proof fn lemma_translate_overlap_on_axis(a: OBB, b: OBB, t: Vec2, ax: int, ay: int)
    requires
        translate_fits_vec(a.center, t),
        translate_fits_vec(b.center, t),
    ensures
        obb_overlap_on_axis(spec_translate_obb(a, t), spec_translate_obb(b, t), ax, ay)
            == obb_overlap_on_axis(a, b, ax, ay),
{
    lemma_translate_proj(a, t, 0, ax, ay);
    lemma_translate_proj(a, t, 1, ax, ay);
    lemma_translate_proj(a, t, 2, ax, ay);
    lemma_translate_proj(a, t, 3, ax, ay);
    lemma_translate_proj(b, t, 0, ax, ay);
    lemma_translate_proj(b, t, 1, ax, ay);
    lemma_translate_proj(b, t, 2, ax, ay);
    lemma_translate_proj(b, t, 3, ax, ay);
}

/// Translating a box changes neither of its axes.
proof fn lemma_translate_axes(o: OBB, t: Vec2)
    requires
        translate_fits_vec(o.center, t),
    ensures
        axis_x(spec_translate_obb(o, t), 0) == axis_x(o, 0),
        axis_y(spec_translate_obb(o, t), 0) == axis_y(o, 0),
        axis_x(spec_translate_obb(o, t), 1) == axis_x(o, 1),
        axis_y(spec_translate_obb(o, t), 1) == axis_y(o, 1),
{
    lemma_translate_corner(o, t, 0);
    lemma_translate_corner(o, t, 1);
    lemma_translate_corner(o, t, 3);
}

/// The closest point of a translated box to a translated query point is
/// the original closest point, translated.
proof fn lemma_translate_closest(o: OBB, t: Vec2, p: Vec2)
    requires
        translate_fits_vec(o.center, t),
        translate_fits_vec(p, t),
    ensures
        spec_closest_x(spec_translate_obb(o, t), spec_translate_vec(p, t)) == spec_closest_x(o, p)
            + t.x,
        spec_closest_y(spec_translate_obb(o, t), spec_translate_vec(p, t)) == spec_closest_y(o, p)
            + t.y,
{
    let o2 = spec_translate_obb(o, t);
    let p2 = spec_translate_vec(p, t);
    assert(p2.x - o2.center.x == p.x - o.center.x);
    assert(p2.y - o2.center.y == p.y - o.center.y);
    assert(local_coord_x(o2, p2) == local_coord_x(o, p));
    assert(local_coord_y(o2, p2) == local_coord_y(o, p));
}

/// The box-against-circle overlap on one axis is unchanged when box and
/// circle move together.
proof fn lemma_translate_circle_on_axis(o: OBB, c: Circle, t: Vec2, ax: int, ay: int)
    requires
        translate_fits_vec(o.center, t),
        translate_fits_vec(c.center, t),
    ensures
        spec_circle_on_axis(
            spec_translate_obb(o, t),
            Circle { center: spec_translate_vec(c.center, t), radius: c.radius },
            ax,
            ay,
        ) == spec_circle_on_axis(o, c, ax, ay),
{
    lemma_translate_proj(o, t, 0, ax, ay);
    lemma_translate_proj(o, t, 1, ax, ay);
    lemma_translate_proj(o, t, 2, ax, ay);
    lemma_translate_proj(o, t, 3, ax, ay);
    let qx = c.center.x;
    let qy = c.center.y;
    assert(4096 * ((qx + t.x) * ax + (qy + t.y) * ay) == 4096 * (qx * ax + qy * ay) + 4096 * (t.x
        * ax) + 4096 * (t.y * ay)) by (nonlinear_arith);
}

/// Intersection results are unchanged under adding the same translation
/// to both hitboxes: every projection and every axis shifts or stays in
/// step, so every interval comparison is untouched.
pub proof fn lemma_translation_invariance(a: Hitbox, b: Hitbox, t: Vec2)
    requires
        translate_fits_hitbox(a, t),
        translate_fits_hitbox(b, t),
    ensures
        spec_hitbox_intersects(spec_translate_hitbox(a, t), spec_translate_hitbox(b, t))
            == spec_hitbox_intersects(a, b),
{
    match (a, b) {
        (Hitbox::OBB(x), Hitbox::OBB(y)) => {
            lemma_translate_axes(x, t);
            lemma_translate_axes(y, t);
            lemma_translate_overlap_on_axis(x, y, t, axis_x(x, 0), axis_y(x, 0));
            lemma_translate_overlap_on_axis(x, y, t, axis_x(x, 1), axis_y(x, 1));
            lemma_translate_overlap_on_axis(x, y, t, axis_x(y, 0), axis_y(y, 0));
            lemma_translate_overlap_on_axis(x, y, t, axis_x(y, 1), axis_y(y, 1));
        },
        (Hitbox::OBB(x), Hitbox::Circle(y)) => {
            lemma_translate_obb_circle(x, y, t);
        },
        (Hitbox::Circle(x), Hitbox::OBB(y)) => {
            lemma_translate_obb_circle(y, x, t);
        },
        (Hitbox::Circle(x), Hitbox::Circle(y)) => {
            assert(spec_translate_vec(x.center, t).x - spec_translate_vec(y.center, t).x
                == x.center.x - y.center.x);
            assert(spec_translate_vec(x.center, t).y - spec_translate_vec(y.center, t).y
                == x.center.y - y.center.y);
        },
    }
}

/// The box-against-circle decision is unchanged when both move together.
proof fn lemma_translate_obb_circle(o: OBB, c: Circle, t: Vec2)
    requires
        translate_fits_vec(o.center, t),
        translate_fits_vec(c.center, t),
    ensures
        spec_obb_intersects_circle(
            spec_translate_obb(o, t),
            Circle { center: spec_translate_vec(c.center, t), radius: c.radius },
        ) == spec_obb_intersects_circle(o, c),
{
    let o2 = spec_translate_obb(o, t);
    let c2 = Circle { center: spec_translate_vec(c.center, t), radius: c.radius };
    lemma_translate_axes(o, t);
    lemma_translate_closest(o, t, c.center);
    assert(c2.center.x - spec_closest_x(o2, c2.center) == c.center.x - spec_closest_x(o, c.center));
    assert(c2.center.y - spec_closest_y(o2, c2.center) == c.center.y - spec_closest_y(o, c.center));
    lemma_translate_circle_on_axis(o, c, t, axis_x(o, 0), axis_y(o, 0));
    lemma_translate_circle_on_axis(o, c, t, axis_x(o, 1), axis_y(o, 1));
    let wx = c.center.x - spec_closest_x(o, c.center);
    let wy = c.center.y - spec_closest_y(o, c.center);
    lemma_translate_circle_on_axis(o, c, t, wx, wy);
}

/// When the circle's center is the box's own closest point to it (the
/// center lies on or inside the box), the closest-point axis would be the
/// zero vector: it is skipped, and the decision is exactly the two
/// box-axes tests.
pub proof fn lemma_center_on_box_skips_closest_axis(o: OBB, c: Circle)
    requires
        spec_closest_x(o, c.center) == c.center.x,
        spec_closest_y(o, c.center) == c.center.y,
    ensures
        spec_obb_intersects_circle(o, c) == (spec_circle_on_axis(o, c, axis_x(o, 0), axis_y(o, 0))
            && spec_circle_on_axis(o, c, axis_x(o, 1), axis_y(o, 1))),
{
}

/// The circle-against-circle decision reads only the two centers and the
/// two radii: no rotation exists on a circle and none enters the rule,
/// which compares the center distance against the sum of both radii.
pub proof fn lemma_circle_circle_rule(a: Circle, b: Circle)
    ensures
        spec_hitbox_intersects(Hitbox::Circle(a), Hitbox::Circle(b)) == (spec_dist2(
            a.center,
            b.center,
        ) <= (a.radius + b.radius) * (a.radius + b.radius)),
{
}

/// The weapon projector is a pure function of the weapon value: equal
/// inputs give equal hitboxes, with no hidden state.
pub proof fn lemma_projector_deterministic(a: Weapon, b: Weapon)
    requires
        a == b,
    ensures
        spec_weapon_obb(a) == spec_weapon_obb(b),
{
}

} // verus!
