//! The weapon hitbox projector: derive a weapon's world-space oriented
//! hitbox from its draw transform (pivot position, rotation, uniform
//! scale) and a ratio-based sub-rectangle of the sprite.
//!
//! The sprite is drawn with its top-left corner at the pivot and rotates
//! about the pivot, but the damaging region (the blade) covers only a
//! fraction of the sprite and its center is generally not at the pivot. So
//! the projector first lays the sub-rectangle out against the unrotated
//! sprite, then carries the rectangle's center around the pivot by the
//! weapon's rotation. Ratios and the scale factor are fixed-point values
//! in units of [`RATIO_ONE`] and [`SCALE_ONE`]; every division rounds
//! toward negative infinity.

use vstd::prelude::*;

verus! {

use crate::geom::{Vec2, Rot, ROT_ONE, COORD_LIMIT, EXTENT_LIMIT, div_floor, lemma_mul_bound};
use crate::collision::{Collidable, Hitbox, HitboxParams, OBB};
use vstd::arithmetic::mul::{lemma_mul_inequality, lemma_mul_nonnegative};

/// One full unit of the blade-ratio scale: a ratio in `(0, 1]` is stored
/// as an integer in `(0, RATIO_ONE]`.
pub const RATIO_ONE: i64 = 1024;

/// One full unit of the sprite scale factor.
pub const SCALE_ONE: i64 = 1024;

/// Largest scale factor a weapon may carry (1024 full units).
pub const SCALE_LIMIT: i64 = 1048576;

/// Largest magnitude of a weapon pivot coordinate; chosen so that the
/// projected hitbox center always stays inside the world.
pub const PIVOT_LIMIT: i64 = 65536;

/// Largest scaled sprite dimension (`2 * EXTENT_LIMIT`): the blade is at
/// most the whole sprite, so its half-extents then fit `EXTENT_LIMIT`.
pub const ADJUSTED_LIMIT: i64 = 16384;

/// A weapon's damaging region as a fraction of its sprite: the body
/// parameters plus the width and height ratios of the blade rectangle,
/// each in `(0, RATIO_ONE]`.
#[derive(Clone, Copy, Debug, PartialEq, Eq, Structural)]
pub struct WeaponHitboxParams {
    pub params: HitboxParams,
    pub width_ratio: i64,
    pub height_ratio: i64,
}

impl WeaponHitboxParams {
    pub open spec fn wf(self) -> bool {
        &&& self.params.wf()
        &&& 0 < self.width_ratio <= RATIO_ONE
        &&& 0 < self.height_ratio <= RATIO_ONE
    }

    /// Runtime check matching `wf`.
    pub fn is_wf(&self) -> (r: bool)
        ensures
            r == self.wf(),
    {
        0 <= self.params.size.x && self.params.size.x <= 2 * EXTENT_LIMIT && 0
            <= self.params.size.y && self.params.size.y <= 2 * EXTENT_LIMIT && -EXTENT_LIMIT
            <= self.params.offset_frame.x && self.params.offset_frame.x <= EXTENT_LIMIT
            && -EXTENT_LIMIT <= self.params.offset_frame.y && self.params.offset_frame.y
            <= EXTENT_LIMIT && 0 < self.width_ratio && self.width_ratio <= RATIO_ONE && 0
            < self.height_ratio && self.height_ratio <= RATIO_ONE
    }
}

/// A weapon's draw transform together with its hitbox parameters. The
/// `position` is the world-space draw pivot (the sprite's unrotated
/// top-left corner), `rotation` the current swing angle, and `size_ratio`
/// the uniform sprite scale in units of `SCALE_ONE`.
#[derive(Clone, Copy, Debug, PartialEq, Eq, Structural)]
pub struct Weapon {
    pub position: Vec2,
    pub rotation: Rot,
    pub size_ratio: i64,
    pub hitbox_params: WeaponHitboxParams,
}

impl Weapon {
    /// Pivot inside its range, rotation and parameters well-formed, and
    /// the scaled sprite no larger than `ADJUSTED_LIMIT` per dimension.
    pub open spec fn wf(self) -> bool {
        &&& -PIVOT_LIMIT <= self.position.x <= PIVOT_LIMIT
        &&& -PIVOT_LIMIT <= self.position.y <= PIVOT_LIMIT
        &&& self.rotation.wf()
        &&& 0 < self.size_ratio <= SCALE_LIMIT
        &&& self.hitbox_params.wf()
        &&& self.size_ratio * self.hitbox_params.params.size.x <= SCALE_ONE * ADJUSTED_LIMIT
        &&& self.size_ratio * self.hitbox_params.params.size.y <= SCALE_ONE * ADJUSTED_LIMIT
    }

    pub fn new(position: Vec2, rotation: Rot, size_ratio: i64, hitbox_params: WeaponHitboxParams)
        -> (r: Weapon)
        ensures
            r == (Weapon { position, rotation, size_ratio, hitbox_params }),
    {
        Weapon { position, rotation, size_ratio, hitbox_params }
    }

    /// Runtime check matching `wf`.
    pub fn is_wf(&self) -> (r: bool)
        ensures
            r == self.wf(),
    {
        let basic = -PIVOT_LIMIT <= self.position.x && self.position.x <= PIVOT_LIMIT
            && -PIVOT_LIMIT <= self.position.y && self.position.y <= PIVOT_LIMIT
            && self.rotation.is_wf() && 0 < self.size_ratio && self.size_ratio <= SCALE_LIMIT
            && self.hitbox_params.is_wf();
        if !basic {
            return false;
        }
        proof {
            lemma_mul_bound(self.size_ratio as int, self.hitbox_params.params.size.x as int,
                1048576, 16384);
            lemma_mul_bound(self.size_ratio as int, self.hitbox_params.params.size.y as int,
                1048576, 16384);
        }
        self.size_ratio * self.hitbox_params.params.size.x <= SCALE_ONE * ADJUSTED_LIMIT
            && self.size_ratio * self.hitbox_params.params.size.y <= SCALE_ONE * ADJUSTED_LIMIT
    }
}

/// Scaled sprite width: the reference width times the scale factor.
pub open spec fn spec_adjusted_w(w: Weapon) -> int {
    (w.size_ratio * w.hitbox_params.params.size.x) / (SCALE_ONE as int)
}

/// Scaled sprite height.
pub open spec fn spec_adjusted_h(w: Weapon) -> int {
    (w.size_ratio * w.hitbox_params.params.size.y) / (SCALE_ONE as int)
}

/// Blade rectangle width: the width ratio of the scaled sprite width.
pub open spec fn spec_blade_w(w: Weapon) -> int {
    (w.hitbox_params.width_ratio * spec_adjusted_w(w)) / (RATIO_ONE as int)
}

/// Blade rectangle height.
pub open spec fn spec_blade_h(w: Weapon) -> int {
    (w.hitbox_params.height_ratio * spec_adjusted_h(w)) / (RATIO_ONE as int)
}

/// Unrotated world x of the blade rectangle's top-left corner: the pivot
/// shifted by the sprite margin left of the blade, minus the frame offset.
pub open spec fn spec_rect_x(w: Weapon) -> int {
    w.position.x + ((RATIO_ONE - w.hitbox_params.width_ratio) * spec_adjusted_w(w)) / (
    RATIO_ONE as int) - w.hitbox_params.params.offset_frame.x
}

/// Unrotated world y of the blade rectangle's top-left corner: the sprite
/// margin above the blade, pulled back up so the blade hugs the sprite's
/// top edge, minus the frame offset.
pub open spec fn spec_rect_y(w: Weapon) -> int {
    w.position.y + ((RATIO_ONE - w.hitbox_params.height_ratio) * spec_adjusted_h(w)) / (
    RATIO_ONE as int) - (spec_adjusted_h(w) - (spec_adjusted_h(w) - spec_blade_h(w)) / 2)
        - w.hitbox_params.params.offset_frame.y
}

pub open spec fn spec_half_w(w: Weapon) -> int {
    spec_blade_w(w) / 2
}

pub open spec fn spec_half_h(w: Weapon) -> int {
    spec_blade_h(w) / 2
}

/// Unrotated world x of the blade rectangle's center.
pub open spec fn spec_local_cx(w: Weapon) -> int {
    spec_rect_x(w) + spec_half_w(w)
}

/// Unrotated world y of the blade rectangle's center.
pub open spec fn spec_local_cy(w: Weapon) -> int {
    spec_rect_y(w) + spec_half_h(w)
}

/// World x of the hitbox center: the unrotated center carried around the
/// pivot by the weapon's rotation.
pub open spec fn spec_center_x(w: Weapon) -> int {
    w.position.x + (w.rotation.cos_q * (spec_local_cx(w) - w.position.x) - w.rotation.sin_q * (
    spec_local_cy(w) - w.position.y)) / (ROT_ONE as int)
}

/// World y of the hitbox center.
pub open spec fn spec_center_y(w: Weapon) -> int {
    w.position.y + (w.rotation.sin_q * (spec_local_cx(w) - w.position.x) + w.rotation.cos_q * (
    spec_local_cy(w) - w.position.y)) / (ROT_ONE as int)
}

/// The oriented box the projector yields: the blade rectangle's rotated
/// center, half the blade dimensions, and the weapon's own rotation.
pub open spec fn spec_weapon_obb(w: Weapon) -> OBB {
    OBB {
        center: Vec2 { x: spec_center_x(w) as i64, y: spec_center_y(w) as i64 },
        half: Vec2 { x: spec_half_w(w) as i64, y: spec_half_h(w) as i64 },
        rotation: w.rotation,
    }
}

impl Weapon {
    /// Scale the reference sprite size by the weapon's scale factor.
    fn adjusted_size(&self) -> (r: Vec2)
        requires
            self.wf(),
        ensures
            r.x == spec_adjusted_w(*self),
            r.y == spec_adjusted_h(*self),
            0 <= r.x <= ADJUSTED_LIMIT,
            0 <= r.y <= ADJUSTED_LIMIT,
    {
        let sx = self.hitbox_params.params.size.x;
        let sy = self.hitbox_params.params.size.y;
        proof {
            lemma_mul_bound(self.size_ratio as int, sx as int, 1048576, 16384);
            lemma_mul_bound(self.size_ratio as int, sy as int, 1048576, 16384);
            lemma_mul_nonnegative(self.size_ratio as int, sx as int);
            lemma_mul_nonnegative(self.size_ratio as int, sy as int);
        }
        let ax = div_floor(self.size_ratio * sx, SCALE_ONE);
        let ay = div_floor(self.size_ratio * sy, SCALE_ONE);
        Vec2 { x: ax, y: ay }
    }
}

impl Collidable for Weapon {
    open spec fn hitbox_wf(&self) -> bool {
        self.wf()
    }

    open spec fn spec_hitbox(&self) -> Hitbox {
        Hitbox::OBB(spec_weapon_obb(*self))
    }

    /// Project the weapon's blade rectangle into world space: scale the
    /// sprite, lay the blade against the unrotated sprite, then rotate the
    /// blade's center about the draw pivot.
    fn hitbox(&self) -> (r: Hitbox) {
        let wr = self.hitbox_params.width_ratio;
        let hr = self.hitbox_params.height_ratio;
        let a = self.adjusted_size();
        proof {
            lemma_mul_bound(hr as int, a.y as int, 1024, 16384);
            lemma_mul_nonnegative(hr as int, a.y as int);
            lemma_mul_inequality(hr as int, 1024, a.y as int);
        }
        let h = div_floor(hr * a.y, RATIO_ONE);
        proof {
            lemma_mul_bound((RATIO_ONE - wr) as int, a.x as int, 1024, 16384);
            lemma_mul_nonnegative((RATIO_ONE - wr) as int, a.x as int);
            lemma_mul_inequality((RATIO_ONE - wr) as int, 1024, a.x as int);
            lemma_mul_bound((RATIO_ONE - hr) as int, a.y as int, 1024, 16384);
            lemma_mul_nonnegative((RATIO_ONE - hr) as int, a.y as int);
            lemma_mul_inequality((RATIO_ONE - hr) as int, 1024, a.y as int);
        }
        let x = self.position.x + div_floor((RATIO_ONE - wr) * a.x, RATIO_ONE)
            - self.hitbox_params.params.offset_frame.x;
        let y = self.position.y + div_floor((RATIO_ONE - hr) * a.y, RATIO_ONE) - (a.y - div_floor(
            a.y - h,
            2,
        )) - self.hitbox_params.params.offset_frame.y;
        proof {
            lemma_mul_bound(wr as int, a.x as int, 1024, 16384);
            lemma_mul_nonnegative(wr as int, a.x as int);
            lemma_mul_inequality(wr as int, 1024, a.x as int);
        }
        let w = div_floor(wr * a.x, RATIO_ONE);
        let half = Vec2 { x: div_floor(w, 2), y: div_floor(h, 2) };
        let lcx = x + half.x;
        let lcy = y + half.y;
        let dx = lcx - self.position.x;
        let dy = lcy - self.position.y;
        let c = self.rotation.cos_q;
        let s = self.rotation.sin_q;
        proof {
            lemma_mul_bound(c as int, dx as int, 4096, 65536);
            lemma_mul_bound(s as int, dx as int, 4096, 65536);
            lemma_mul_bound(c as int, dy as int, 4096, 65536);
            lemma_mul_bound(s as int, dy as int, 4096, 65536);
        }
        let rx = div_floor(c * dx - s * dy, ROT_ONE);
        let ry = div_floor(s * dx + c * dy, ROT_ONE);
        let center = Vec2 { x: self.position.x + rx, y: self.position.y + ry };
        Hitbox::OBB(OBB { center, half, rotation: self.rotation })
    }
}

} // verus!
