//! Collision-geometry engine for a 2-D action game.
//!
//! The engine decides whether the hit-regions of two arbitrarily rotated
//! game objects overlap, and derives a weapon's world-space hit-region from
//! its draw transform. All geometry is carried in exact fixed-point integer
//! coordinates so that every decision the engine makes is proved, not
//! approximated: a rotation is a cosine/sine pair in units of
//! [`geom::ROT_ONE`], and box corners are produced in rotation subunits so
//! that no intermediate result is ever rounded inside an intersection test.

pub mod collision;
pub mod geom;
pub mod laws;
pub mod weapon;
pub mod weapons;

pub use geom::{Rot, Vec2, COORD_LIMIT, EXTENT_LIMIT, ROT_ONE};
pub use collision::{Circle, Collidable, Hitbox, HitboxParams, OBB};
pub use weapon::{Weapon, WeaponHitboxParams};
pub use weapons::{Aura, Dagger, DaggerAggregate, Sword, WeaponSet};
