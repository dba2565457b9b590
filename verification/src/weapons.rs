//! Concrete weapon kinds built on the projector: the swinging sword, the
//! thrown daggers, and the area-effect aura. Each kind differs from the
//! others only in its ratio and offset constants; the projection itself is
//! the one parametrized derivation in [`crate::weapon`].

use vstd::prelude::*;

verus! {

use crate::geom::{Vec2, Rot};
use crate::collision::{Circle, Collidable, Hitbox, HitboxParams, hitbox_intersects,
    spec_hitbox_intersects_checked};
use crate::weapon::{Weapon, WeaponHitboxParams, spec_weapon_obb, PIVOT_LIMIT};

/// Reference sword sprite width in pixels.
pub const SWORD_WIDTH: i64 = 897;

/// Reference sword sprite height in pixels.
pub const SWORD_HEIGHT: i64 = 216;

/// Width ratio of the sword's blade, in `RATIO_ONE` units (about 0.70 of
/// the sprite, from the tip toward the handle).
pub const SWORD_WIDTH_RATIO: i64 = 717;

/// Height ratio of the sword's blade, in `RATIO_ONE` units (about 0.53 of
/// the sprite height).
pub const SWORD_HEIGHT_RATIO: i64 = 543;

/// Reference dagger sprite width in pixels.
pub const DAGGER_WIDTH: i64 = 951;

/// Reference dagger sprite height in pixels.
pub const DAGGER_HEIGHT: i64 = 256;

/// Width ratio of the dagger's blade, in `RATIO_ONE` units (about 0.51).
pub const DAGGER_WIDTH_RATIO: i64 = 522;

/// Height ratio of the dagger's blade, in `RATIO_ONE` units (about 0.55).
pub const DAGGER_HEIGHT_RATIO: i64 = 563;

pub open spec fn spec_sword_params() -> WeaponHitboxParams {
    WeaponHitboxParams {
        params: HitboxParams {
            size: Vec2 { x: SWORD_WIDTH as i64, y: SWORD_HEIGHT as i64 },
            offset_frame: Vec2 { x: -20 as i64, y: 0 as i64 },
        },
        width_ratio: SWORD_WIDTH_RATIO as i64,
        height_ratio: SWORD_HEIGHT_RATIO as i64,
    }
}

/// The sword's blade parameters.
pub fn sword_hitbox_params() -> (r: WeaponHitboxParams)
    ensures
        r == spec_sword_params(),
        r.wf(),
{
    WeaponHitboxParams {
        params: HitboxParams {
            size: Vec2 { x: SWORD_WIDTH, y: SWORD_HEIGHT },
            offset_frame: Vec2 { x: -20, y: 0 },
        },
        width_ratio: SWORD_WIDTH_RATIO,
        height_ratio: SWORD_HEIGHT_RATIO,
    }
}

pub open spec fn spec_dagger_params() -> WeaponHitboxParams {
    WeaponHitboxParams {
        params: HitboxParams {
            size: Vec2 { x: DAGGER_WIDTH as i64, y: DAGGER_HEIGHT as i64 },
            offset_frame: Vec2 { x: 0 as i64, y: 0 as i64 },
        },
        width_ratio: DAGGER_WIDTH_RATIO as i64,
        height_ratio: DAGGER_HEIGHT_RATIO as i64,
    }
}

/// The dagger's blade parameters.
pub fn dagger_hitbox_params() -> (r: WeaponHitboxParams)
    ensures
        r == spec_dagger_params(),
        r.wf(),
{
    WeaponHitboxParams {
        params: HitboxParams {
            size: Vec2 { x: DAGGER_WIDTH, y: DAGGER_HEIGHT },
            offset_frame: Vec2 { x: 0, y: 0 },
        },
        width_ratio: DAGGER_WIDTH_RATIO,
        height_ratio: DAGGER_HEIGHT_RATIO,
    }
}

/// The player's swinging sword: a weapon with the sword's constants.
#[derive(Clone, Copy, Debug, PartialEq, Eq, Structural)]
pub struct Sword {
    pub weapon: Weapon,
}

impl Sword {
    pub fn new(position: Vec2, rotation: Rot, size_ratio: i64) -> (r: Sword)
        ensures
            r.weapon == (Weapon {
                position,
                rotation,
                size_ratio,
                hitbox_params: spec_sword_params(),
            }),
    {
        Sword { weapon: Weapon::new(position, rotation, size_ratio, sword_hitbox_params()) }
    }

    /// Advance the swing by one step: turn the sword's rotation further by
    /// `swing`, the rotation covered since the last update (an explicit
    /// per-entity elapsed input, not an ambient clock).
    pub fn update(&mut self, swing: Rot)
        requires
            old(self).weapon.rotation.wf(),
            swing.wf(),
        ensures
            final(self).weapon == (Weapon {
                rotation: old(self).weapon.rotation.spec_compose(swing),
                ..old(self).weapon
            }),
            final(self).weapon.rotation.wf(),
    {
        self.weapon.rotation = self.weapon.rotation.compose(&swing);
    }
}

impl Collidable for Sword {
    open spec fn hitbox_wf(&self) -> bool {
        self.weapon.wf()
    }

    open spec fn spec_hitbox(&self) -> Hitbox {
        Hitbox::OBB(spec_weapon_obb(self.weapon))
    }

    fn hitbox(&self) -> (r: Hitbox) {
        self.weapon.hitbox()
    }
}

/// The area-effect aura around the player: a plain circular hit-region.
#[derive(Clone, Copy, Debug, PartialEq, Eq, Structural)]
pub struct Aura {
    pub circle: Circle,
}

impl Collidable for Aura {
    open spec fn hitbox_wf(&self) -> bool {
        self.circle.wf()
    }

    open spec fn spec_hitbox(&self) -> Hitbox {
        Hitbox::Circle(self.circle)
    }

    fn hitbox(&self) -> (r: Hitbox) {
        Hitbox::Circle(self.circle)
    }
}

/// One thrown dagger: a weapon plus its velocity.
#[derive(Clone, Copy, Debug, PartialEq, Eq, Structural)]
pub struct Dagger {
    pub weapon: Weapon,
    pub vel: Vec2,
}

/// `d` after one movement step.
pub open spec fn spec_dagger_advanced(d: Dagger) -> Dagger {
    Dagger {
        weapon: Weapon {
            position: Vec2 {
                x: (d.weapon.position.x + d.vel.x) as i64,
                y: (d.weapon.position.y + d.vel.y) as i64,
            },
            rotation: d.weapon.rotation,
            size_ratio: d.weapon.size_ratio,
            hitbox_params: d.weapon.hitbox_params,
        },
        vel: d.vel,
    }
}

/// The dagger `d` would be hit by `h` (both hitboxes well-formed and the
/// separating-axis test positive).
pub open spec fn spec_dagger_hit(h: Hitbox, d: Dagger) -> bool {
    spec_hitbox_intersects_checked(h, Hitbox::OBB(spec_weapon_obb(d.weapon)))
}

/// No dagger before index `i` is hit by `h`.
pub open spec fn spec_no_hit_before(h: Hitbox, s: Seq<Dagger>, i: int) -> bool {
    forall|j: int| 0 <= j < i ==> !spec_dagger_hit(h, #[trigger] s[j])
}

/// All the daggers currently in flight. Each collision query tests every
/// dagger and consumes the first one that hits: a dagger is a one-shot
/// projectile.
pub struct DaggerAggregate {
    pub daggers: Vec<Dagger>,
}

impl DaggerAggregate {
    pub fn new() -> (r: DaggerAggregate)
        ensures
            r.daggers@.len() == 0,
    {
        DaggerAggregate { daggers: Vec::new() }
    }

    /// Launch a new dagger with the dagger blade constants.
    pub fn new_dagger(&mut self, position: Vec2, vel: Vec2, rotation: Rot, size_ratio: i64)
        ensures
            final(self).daggers@ == old(self).daggers@.push(
                Dagger {
                    weapon: Weapon {
                        position,
                        rotation,
                        size_ratio,
                        hitbox_params: spec_dagger_params(),
                    },
                    vel,
                },
            ),
    {
        let weapon = Weapon::new(position, rotation, size_ratio, dagger_hitbox_params());
        self.daggers.push(Dagger { weapon, vel });
    }

    /// Move every dagger one step along its velocity.
    pub fn update(&mut self)
        requires
            forall|i: int| 0 <= i < old(self).daggers@.len() ==> {
                let d = #[trigger] old(self).daggers@[i];
                &&& -PIVOT_LIMIT <= d.weapon.position.x + d.vel.x <= PIVOT_LIMIT
                &&& -PIVOT_LIMIT <= d.weapon.position.y + d.vel.y <= PIVOT_LIMIT
            },
        ensures
            final(self).daggers@.len() == old(self).daggers@.len(),
            forall|i: int| 0 <= i < old(self).daggers@.len() ==> #[trigger] final(self).daggers@[i]
                == spec_dagger_advanced(old(self).daggers@[i]),
    {
        let n = self.daggers.len();
        let mut i: usize = 0;
        while i < n
            invariant
                n == self.daggers@.len(),
                self.daggers@.len() == old(self).daggers@.len(),
                0 <= i <= n,
                forall|j: int| i <= j < n ==> #[trigger] self.daggers@[j] == old(
                    self,
                ).daggers@[j],
                forall|j: int| 0 <= j < i ==> #[trigger] self.daggers@[j] == spec_dagger_advanced(
                    old(self).daggers@[j],
                ),
                forall|j: int| 0 <= j < old(self).daggers@.len() ==> {
                    let d = #[trigger] old(self).daggers@[j];
                    &&& -PIVOT_LIMIT <= d.weapon.position.x + d.vel.x <= PIVOT_LIMIT
                    &&& -PIVOT_LIMIT <= d.weapon.position.y + d.vel.y <= PIVOT_LIMIT
                },
            decreases n - i,
        {
            let d = self.daggers[i];
            let np = Vec2 { x: d.weapon.position.x + d.vel.x, y: d.weapon.position.y + d.vel.y };
            self.daggers[i] = Dagger {
                weapon: Weapon {
                    position: np,
                    rotation: d.weapon.rotation,
                    size_ratio: d.weapon.size_ratio,
                    hitbox_params: d.weapon.hitbox_params,
                },
                vel: d.vel,
            };
            i = i + 1;
        }
    }

    /// Test the given hitbox against every dagger; the first dagger that
    /// intersects it is consumed (removed by swapping in the last one) and
    /// the query answers `true`. With no hit, nothing changes.
    pub fn collide_with(&mut self, hitbox: &Hitbox) -> (r: bool)
        requires
            forall|i: int| 0 <= i < old(self).daggers@.len() ==> (#[trigger] old(
                self,
            ).daggers@[i]).weapon.wf(),
        ensures
            r == !spec_no_hit_before(*hitbox, old(self).daggers@, old(self).daggers@.len() as int),
            !r ==> final(self).daggers@ == old(self).daggers@,
            r ==> exists|i: int|
                0 <= i < old(self).daggers@.len() && spec_dagger_hit(
                    *hitbox,
                    #[trigger] old(self).daggers@[i],
                ) && spec_no_hit_before(*hitbox, old(self).daggers@, i) && final(self).daggers@
                    == old(self).daggers@.update(i, old(self).daggers@.last()).drop_last(),
    {
        let n = self.daggers.len();
        let mut i: usize = 0;
        while i < n
            invariant
                n == self.daggers@.len(),
                self.daggers@ == old(self).daggers@,
                0 <= i <= n,
                spec_no_hit_before(*hitbox, self.daggers@, i as int),
                forall|j: int| 0 <= j < old(self).daggers@.len() ==> (#[trigger] old(
                    self,
                ).daggers@[j]).weapon.wf(),
            decreases n - i,
        {
            let d = self.daggers[i];
            let hb = d.weapon.hitbox();
            if hitbox_intersects(hitbox, &hb) {
                self.daggers.swap_remove(i);
                return true;
            }
            i = i + 1;
        }
        false
    }
}

/// The sword would hit `h`: the sword's transform is in range and the
/// separating-axis test on its projected blade box is positive.
pub open spec fn spec_sword_hit(h: Hitbox, s: Sword) -> bool {
    s.weapon.wf() && spec_hitbox_intersects_checked(Hitbox::OBB(spec_weapon_obb(s.weapon)), h)
}

/// Everything a fighter swings or throws: the melee sword and the daggers
/// in flight, queried as one.
pub struct WeaponSet {
    pub sword: Sword,
    pub daggers: DaggerAggregate,
}

impl WeaponSet {
    /// Intersection-test the hitbox against each weapon part, stopping at
    /// the first hit. A sword hit consumes nothing; a dagger hit consumes
    /// the dagger that hit (it is a one-shot projectile). A sword whose
    /// transform is out of range is passed over, never a crash.
    pub fn collides_with_any(&mut self, hitbox: &Hitbox) -> (r: bool)
        requires
            forall|i: int| 0 <= i < old(self).daggers.daggers@.len() ==> (#[trigger] old(
                self,
            ).daggers.daggers@[i]).weapon.wf(),
        ensures
            final(self).sword == old(self).sword,
            r == (spec_sword_hit(*hitbox, old(self).sword) || !spec_no_hit_before(
                *hitbox,
                old(self).daggers.daggers@,
                old(self).daggers.daggers@.len() as int,
            )),
            spec_sword_hit(*hitbox, old(self).sword) ==> final(self).daggers.daggers@ == old(
                self,
            ).daggers.daggers@,
            !spec_sword_hit(*hitbox, old(self).sword) && !r ==> final(self).daggers.daggers@
                == old(self).daggers.daggers@,
            !spec_sword_hit(*hitbox, old(self).sword) && r ==> exists|i: int|
                0 <= i < old(self).daggers.daggers@.len() && spec_dagger_hit(
                    *hitbox,
                    #[trigger] old(self).daggers.daggers@[i],
                ) && spec_no_hit_before(*hitbox, old(self).daggers.daggers@, i)
                    && final(self).daggers.daggers@ == old(self).daggers.daggers@.update(
                    i,
                    old(self).daggers.daggers@.last(),
                ).drop_last(),
    {
        if self.sword.weapon.is_wf() {
            let sword_box = self.sword.weapon.hitbox();
            if hitbox_intersects(&sword_box, hitbox) {
                return true;
            }
        }
        self.daggers.collide_with(hitbox)
    }
}

} // verus!
