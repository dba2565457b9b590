use sat_collision::collision::{Circle, Collidable, Hitbox, HitboxParams, OBB};
use sat_collision::geom::{Rot, Vec2};
use sat_collision::weapon::{Weapon, WeaponHitboxParams};
use sat_collision::weapons::{
    dagger_hitbox_params, sword_hitbox_params, Aura, DaggerAggregate, Sword, WeaponSet,
};

#[test]
fn sword_params_are_well_formed() {
    let p = sword_hitbox_params();
    assert!(p.is_wf());
    assert_eq!(p.params.size, Vec2 { x: 897, y: 216 });
    assert_eq!(p.params.offset_frame, Vec2 { x: -20, y: 0 });
    assert_eq!((p.width_ratio, p.height_ratio), (717, 543));
}

#[test]
fn dagger_params_are_well_formed() {
    let p = dagger_hitbox_params();
    assert!(p.is_wf());
    assert_eq!(p.params.size, Vec2 { x: 951, y: 256 });
    assert_eq!((p.width_ratio, p.height_ratio), (522, 563));
}

#[test]
fn projector_exact_output_unrotated() {
    // Full scale (size_ratio one unit), no rotation: the blade rectangle
    // is 628 x 114 pixels with its top-left at (388, -14), so the box is
    // centered at (702, 43) with half-extents (314, 57).
    let w = Weapon::new(
        Vec2 { x: 100, y: 50 },
        Rot::zero(),
        1024,
        sword_hitbox_params(),
    );
    assert!(w.is_wf());
    let hb = w.hitbox();
    assert_eq!(
        hb,
        Hitbox::OBB(OBB {
            center: Vec2 { x: 702, y: 43 },
            half: Vec2 { x: 314, y: 57 },
            rotation: Rot::zero(),
        })
    );
}

#[test]
fn projector_rotates_center_about_pivot() {
    // The same weapon a quarter turn later: the pivot-relative center
    // (602, -7) turns into (7, 602), the half-extents stay.
    let w = Weapon::new(
        Vec2 { x: 100, y: 50 },
        Rot { cos_q: 0, sin_q: 4096 },
        1024,
        sword_hitbox_params(),
    );
    let hb = w.hitbox();
    assert_eq!(
        hb,
        Hitbox::OBB(OBB {
            center: Vec2 { x: 107, y: 652 },
            half: Vec2 { x: 314, y: 57 },
            rotation: Rot { cos_q: 0, sin_q: 4096 },
        })
    );
}

#[test]
fn projector_is_deterministic() {
    let make = || {
        Weapon::new(
            Vec2 { x: -300, y: 211 },
            Rot { cos_q: 2896, sin_q: -2896 },
            512,
            sword_hitbox_params(),
        )
    };
    let a = make();
    let b = make();
    assert_eq!(a.hitbox(), a.hitbox());
    assert_eq!(a.hitbox(), b.hitbox());
}

#[test]
fn weapon_validity_check() {
    let good = Weapon::new(Vec2 { x: 0, y: 0 }, Rot::zero(), 1024, sword_hitbox_params());
    assert!(good.is_wf());
    // A zero scale factor is rejected.
    let zero_scale = Weapon::new(Vec2 { x: 0, y: 0 }, Rot::zero(), 0, sword_hitbox_params());
    assert!(!zero_scale.is_wf());
    // A scale that blows the sprite past the adjusted limit is rejected.
    let huge = Weapon::new(Vec2 { x: 0, y: 0 }, Rot::zero(), 1024 * 32, sword_hitbox_params());
    assert!(!huge.is_wf());
}

#[test]
fn sword_update_composes_the_swing() {
    let mut sword = Sword::new(Vec2 { x: 10, y: 10 }, Rot::zero(), 256);
    sword.update(Rot { cos_q: 0, sin_q: 4096 });
    assert_eq!(sword.weapon.rotation, Rot { cos_q: 0, sin_q: 4096 });
    sword.update(Rot { cos_q: 0, sin_q: 4096 });
    assert_eq!(sword.weapon.rotation, Rot { cos_q: -4096, sin_q: 0 });
    assert_eq!(sword.weapon.position, Vec2 { x: 10, y: 10 });
}

#[test]
fn aura_exposes_its_circle() {
    let aura = Aura { circle: Circle { center: Vec2 { x: 4, y: 5 }, radius: 30 } };
    assert_eq!(
        aura.hitbox(),
        Hitbox::Circle(Circle { center: Vec2 { x: 4, y: 5 }, radius: 30 })
    );
}

#[test]
fn body_hitbox_from_anchor_and_params() {
    let params = HitboxParams {
        size: Vec2 { x: 29, y: 43 },
        offset_frame: Vec2 { x: 0, y: 8 },
    };
    let hb = params.hitbox_at(Vec2 { x: 100, y: 100 });
    assert_eq!(
        hb,
        Hitbox::OBB(OBB {
            center: Vec2 { x: 100, y: 108 },
            half: Vec2 { x: 14, y: 21 },
            rotation: Rot::zero(),
        })
    );
}

#[test]
fn dagger_aggregate_moves_and_consumes() {
    let mut daggers = DaggerAggregate::new();
    assert_eq!(daggers.daggers.len(), 0);
    // One dagger at the origin, quarter scale, moving right.
    daggers.new_dagger(Vec2 { x: -3, y: 0 }, Vec2 { x: 3, y: 0 }, Rot::zero(), 256);
    daggers.update();
    assert_eq!(daggers.daggers.len(), 1);
    assert_eq!(daggers.daggers[0].weapon.position, Vec2 { x: 0, y: 0 });
    // Its blade box sits at (176, -5) with half-extents (60, 17).
    assert_eq!(
        daggers.daggers[0].weapon.hitbox(),
        Hitbox::OBB(OBB {
            center: Vec2 { x: 176, y: -5 },
            half: Vec2 { x: 60, y: 17 },
            rotation: Rot::zero(),
        })
    );
    // A circle far away consumes nothing.
    let miss = Hitbox::Circle(Circle { center: Vec2 { x: 5000, y: 0 }, radius: 10 });
    assert!(!daggers.collide_with(&miss));
    assert_eq!(daggers.daggers.len(), 1);
    // A circle on the blade consumes the dagger.
    let hit = Hitbox::Circle(Circle { center: Vec2 { x: 176, y: -5 }, radius: 1 });
    assert!(daggers.collide_with(&hit));
    assert_eq!(daggers.daggers.len(), 0);
    // With no daggers left, nothing collides.
    assert!(!daggers.collide_with(&hit));
}

#[test]
fn dagger_collision_consumes_only_first_hit() {
    let mut daggers = DaggerAggregate::new();
    daggers.new_dagger(Vec2 { x: 0, y: 0 }, Vec2 { x: 0, y: 0 }, Rot::zero(), 256);
    daggers.new_dagger(Vec2 { x: 0, y: 0 }, Vec2 { x: 0, y: 0 }, Rot::zero(), 256);
    let hit = Hitbox::Circle(Circle { center: Vec2 { x: 176, y: -5 }, radius: 1 });
    assert!(daggers.collide_with(&hit));
    assert_eq!(daggers.daggers.len(), 1);
    assert!(daggers.collide_with(&hit));
    assert_eq!(daggers.daggers.len(), 0);
}

#[test]
fn weapon_set_short_circuits_on_the_sword() {
    // Sword at the origin, quarter scale; its blade box covers roughly
    // x in [27, 150] around y = 7 (the sword formula at this scale).
    let mut set = WeaponSet {
        sword: Sword::new(Vec2 { x: 0, y: 0 }, Rot::zero(), 256),
        daggers: DaggerAggregate::new(),
    };
    set.daggers.new_dagger(Vec2 { x: 0, y: 0 }, Vec2 { x: 0, y: 0 }, Rot::zero(), 256);
    // A circle on the sword blade: hit, and the dagger is not consumed.
    let sword_box = set.sword.weapon.hitbox();
    let on_sword = match sword_box {
        Hitbox::OBB(o) => Hitbox::Circle(Circle { center: o.center, radius: 1 }),
        Hitbox::Circle(c) => Hitbox::Circle(c),
    };
    assert!(set.collides_with_any(&on_sword));
    assert_eq!(set.daggers.daggers.len(), 1);
    // A circle nothing reaches.
    let nowhere = Hitbox::Circle(Circle { center: Vec2 { x: 5000, y: 5000 }, radius: 1 });
    assert!(!set.collides_with_any(&nowhere));
    assert_eq!(set.daggers.daggers.len(), 1);
}

#[test]
fn weapon_set_consumes_a_dagger_when_sword_misses() {
    let mut set = WeaponSet {
        // A sword far away from everything below.
        sword: Sword::new(Vec2 { x: -40_000, y: -40_000 }, Rot::zero(), 256),
        daggers: DaggerAggregate::new(),
    };
    set.daggers.new_dagger(Vec2 { x: 0, y: 0 }, Vec2 { x: 0, y: 0 }, Rot::zero(), 256);
    let on_dagger = Hitbox::Circle(Circle { center: Vec2 { x: 176, y: -5 }, radius: 1 });
    assert!(set.collides_with_any(&on_dagger));
    assert_eq!(set.daggers.daggers.len(), 0);
}

#[test]
fn weapon_validity_guards_the_projector() {
    // The projector contract asks for a valid weapon; a caller checks
    // first and a full-size dagger at quarter scale passes.
    let w = Weapon::new(Vec2 { x: 0, y: 0 }, Rot::zero(), 256, dagger_hitbox_params());
    assert!(w.is_wf());
    let _ = w.hitbox();
    let p = WeaponHitboxParams {
        params: HitboxParams { size: Vec2 { x: 951, y: 256 }, offset_frame: Vec2 { x: 0, y: 0 } },
        width_ratio: 0,
        height_ratio: 563,
    };
    assert!(!p.is_wf());
}
