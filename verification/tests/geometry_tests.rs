use sat_collision::collision::OBB;
use sat_collision::geom::{div_floor, div_trunc, Rot, Vec2};

#[test]
fn div_floor_rounds_toward_negative_infinity() {
    assert_eq!(div_floor(7, 2), 3);
    assert_eq!(div_floor(-7, 2), -4);
    assert_eq!(div_floor(-8, 2), -4);
    assert_eq!(div_floor(0, 4096), 0);
    assert_eq!(div_floor(-1, 4096), -1);
}

#[test]
fn div_trunc_rounds_toward_zero() {
    assert_eq!(div_trunc(7, 2), 3);
    assert_eq!(div_trunc(-7, 2), -3);
    assert_eq!(div_trunc(-8, 2), -4);
    assert_eq!(div_trunc(-1, 4096), 0);
}

#[test]
fn corners_of_unrotated_box() {
    let obb = OBB {
        center: Vec2 { x: 10, y: 20 },
        half: Vec2 { x: 3, y: 4 },
        rotation: Rot::zero(),
    };
    let c = obb.corners();
    // Corner coordinates are in rotation subunits (world * 4096),
    // counter-clockwise from the corner at local (-3, -4).
    assert_eq!((c[0].x, c[0].y), (7 * 4096, 16 * 4096));
    assert_eq!((c[1].x, c[1].y), (13 * 4096, 16 * 4096));
    assert_eq!((c[2].x, c[2].y), (13 * 4096, 24 * 4096));
    assert_eq!((c[3].x, c[3].y), (7 * 4096, 24 * 4096));
}

#[test]
fn corners_of_quarter_turned_box() {
    // A quarter turn counter-clockwise: cos = 0, sin = 1.
    let obb = OBB {
        center: Vec2 { x: 10, y: 20 },
        half: Vec2 { x: 3, y: 4 },
        rotation: Rot { cos_q: 0, sin_q: 4096 },
    };
    let c = obb.corners();
    // Local (-3, -4) maps to (4, -3) plus the center.
    assert_eq!((c[0].x, c[0].y), (14 * 4096, 17 * 4096));
    assert_eq!((c[1].x, c[1].y), (14 * 4096, 23 * 4096));
    assert_eq!((c[2].x, c[2].y), (6 * 4096, 23 * 4096));
    assert_eq!((c[3].x, c[3].y), (6 * 4096, 17 * 4096));
}

#[test]
fn rot_validity_needs_unit_length() {
    assert!(Rot::zero().is_wf());
    assert!(Rot { cos_q: 2896, sin_q: 2896 }.is_wf());
    // Component in range but the pair longer than one unit.
    assert!(!Rot { cos_q: 4096, sin_q: 26 }.is_wf());
    assert!(!Rot { cos_q: 5000, sin_q: 0 }.is_wf());
}

#[test]
fn compose_quarter_turns_gives_half_turn() {
    let quarter = Rot { cos_q: 0, sin_q: 4096 };
    let half = quarter.compose(&quarter);
    assert_eq!(half, Rot { cos_q: -4096, sin_q: 0 });
    let full = half.compose(&half);
    assert_eq!(full, Rot { cos_q: 4096, sin_q: 0 });
}

#[test]
fn compose_with_identity_changes_nothing() {
    let r = Rot { cos_q: 2896, sin_q: 2896 };
    // 2896 * 4096 / 4096 == 2896 exactly: the identity is neutral.
    assert_eq!(r.compose(&Rot::zero()), r);
    assert_eq!(Rot::zero().compose(&r), r);
}

#[test]
fn composed_rotation_stays_valid() {
    let r = Rot { cos_q: 2896, sin_q: 2896 };
    let mut cur = Rot::zero();
    for _ in 0..16 {
        cur = cur.compose(&r);
        assert!(cur.is_wf());
    }
}
