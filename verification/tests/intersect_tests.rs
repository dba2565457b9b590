use sat_collision::collision::{
    circle_intersects_circle, closest_point_on_obb, hitbox_intersects, obb_intersects_circle,
    obb_intersects_obb, Circle, Hitbox, OBB,
};
use sat_collision::geom::{Rot, Vec2};

fn aa_box(cx: i64, cy: i64, hx: i64, hy: i64) -> OBB {
    OBB { center: Vec2 { x: cx, y: cy }, half: Vec2 { x: hx, y: hy }, rotation: Rot::zero() }
}

fn circle(cx: i64, cy: i64, r: i64) -> Circle {
    Circle { center: Vec2 { x: cx, y: cy }, radius: r }
}

#[test]
fn circle_circle_uses_sum_of_radii() {
    // Two circles of radius 5 with centers 5 apart: the gap to tangency
    // is the sum of both radii (10), so they overlap deeply.
    assert!(circle_intersects_circle(&circle(0, 0, 5), &circle(5, 0, 5)));
    // Exactly touching (distance == sum of radii) counts as intersecting:
    // the tester uses closed intervals throughout.
    assert!(circle_intersects_circle(&circle(0, 0, 5), &circle(10, 0, 5)));
    // One unit farther apart they are disjoint.
    assert!(!circle_intersects_circle(&circle(0, 0, 5), &circle(11, 0, 5)));
}

#[test]
fn intersection_is_symmetric() {
    let shapes = [
        Hitbox::OBB(aa_box(0, 0, 2, 2)),
        Hitbox::OBB(OBB {
            center: Vec2 { x: 3, y: 1 },
            half: Vec2 { x: 2, y: 1 },
            rotation: Rot { cos_q: 2896, sin_q: 2896 },
        }),
        Hitbox::Circle(circle(3, 0, 2)),
        Hitbox::Circle(circle(40, 40, 5)),
    ];
    for a in &shapes {
        for b in &shapes {
            assert_eq!(hitbox_intersects(a, b), hitbox_intersects(b, a));
        }
    }
}

#[test]
fn axis_aligned_boxes_reduce_to_interval_overlap() {
    // Touching edges overlap (closed intervals).
    assert!(obb_intersects_obb(&aa_box(0, 0, 2, 2), &aa_box(4, 0, 2, 2)));
    // Clear overlap.
    assert!(obb_intersects_obb(&aa_box(0, 0, 2, 2), &aa_box(3, 1, 2, 2)));
    // Separated on x.
    assert!(!obb_intersects_obb(&aa_box(0, 0, 2, 2), &aa_box(5, 0, 2, 2)));
    // Separated on y only.
    assert!(!obb_intersects_obb(&aa_box(0, 0, 2, 2), &aa_box(0, 5, 2, 2)));
}

#[test]
fn rotated_boxes_meet_where_aligned_ones_would_not() {
    // A box turned an eighth of a turn reaches sqrt(2) times as far along
    // the diagonal axes.
    let diamond = OBB {
        center: Vec2 { x: 0, y: 0 },
        half: Vec2 { x: 10, y: 10 },
        rotation: Rot { cos_q: 2896, sin_q: 2896 },
    };
    // A box touching only the diamond's horizontal tip at about x = 14.1.
    assert!(obb_intersects_obb(&diamond, &aa_box(15, 0, 1, 1)));
    // The same box does not reach the axis-aligned square.
    assert!(!obb_intersects_obb(&aa_box(0, 0, 10, 10), &aa_box(15, 0, 1, 1)));
    // Beyond the tip, no contact.
    assert!(!obb_intersects_obb(&diamond, &aa_box(17, 0, 1, 1)));
}

#[test]
fn translation_leaves_results_unchanged() {
    let diamond = OBB {
        center: Vec2 { x: 0, y: 0 },
        half: Vec2 { x: 10, y: 10 },
        rotation: Rot { cos_q: 2896, sin_q: 2896 },
    };
    let pairs = [
        (Hitbox::OBB(aa_box(0, 0, 2, 2)), Hitbox::Circle(circle(3, 0, 2))),
        (Hitbox::OBB(aa_box(0, 0, 2, 2)), Hitbox::Circle(circle(9, 0, 2))),
        (Hitbox::Circle(circle(0, 0, 5)), Hitbox::Circle(circle(11, 0, 5))),
        (Hitbox::OBB(diamond), Hitbox::OBB(aa_box(15, 0, 1, 1))),
        (Hitbox::OBB(diamond), Hitbox::Circle(circle(12, 12, 3))),
    ];
    let (tx, ty) = (70, -30);
    for (a, b) in &pairs {
        let ta = translate(a, tx, ty);
        let tb = translate(b, tx, ty);
        assert_eq!(hitbox_intersects(&ta, &tb), hitbox_intersects(a, b));
    }
}

fn translate(h: &Hitbox, tx: i64, ty: i64) -> Hitbox {
    match h {
        Hitbox::OBB(o) => Hitbox::OBB(OBB {
            center: Vec2 { x: o.center.x + tx, y: o.center.y + ty },
            half: o.half,
            rotation: o.rotation,
        }),
        Hitbox::Circle(c) => Hitbox::Circle(Circle {
            center: Vec2 { x: c.center.x + tx, y: c.center.y + ty },
            radius: c.radius,
        }),
    }
}

#[test]
fn circle_center_on_box_edge_skips_closest_axis() {
    // The circle's center lies exactly on the box edge: the closest point
    // is the center itself, the extra axis is skipped, and the box-axes
    // tests decide (overlap).
    let obb = aa_box(0, 0, 2, 2);
    let c = circle(2, 0, 1);
    let closest = closest_point_on_obb(&obb, c.center);
    assert_eq!((closest.x, closest.y), (2, 0));
    assert!(obb_intersects_circle(&obb, &c));
    // Even a zero-radius circle exactly on the edge touches the box.
    assert!(obb_intersects_circle(&obb, &circle(2, 0, 0)));
}

#[test]
fn closest_point_clamps_into_the_box() {
    let obb = aa_box(0, 0, 2, 2);
    let p = closest_point_on_obb(&obb, Vec2 { x: 7, y: -1 });
    assert_eq!((p.x, p.y), (2, -1));
    let inside = closest_point_on_obb(&obb, Vec2 { x: 1, y: 1 });
    assert_eq!((inside.x, inside.y), (1, 1));
}

#[test]
fn box_against_circle_end_to_end() {
    // The unit-square scenario at doubled scale: a box with half-extents
    // (2, 2) at the origin, against a circle of radius 2.
    let obb = aa_box(0, 0, 2, 2);
    // Center at (6, 0): a gap of two units remains.
    assert!(!obb_intersects_circle(&obb, &circle(6, 0, 2)));
    // Center at (3, 0): the circle spans x in [1, 5], the box reaches 2.
    assert!(obb_intersects_circle(&obb, &circle(3, 0, 2)));
}

#[test]
fn rotated_box_against_circle_via_closest_axis() {
    // A circle that clips the axis-aligned square's corner but misses the
    // same square rotated an eighth turn (its corner moved away).
    let square = aa_box(0, 0, 10, 10);
    let diamond = OBB {
        center: Vec2 { x: 0, y: 0 },
        half: Vec2 { x: 10, y: 10 },
        rotation: Rot { cos_q: 2896, sin_q: 2896 },
    };
    let c = circle(12, 12, 3);
    assert!(obb_intersects_circle(&square, &c));
    assert!(!obb_intersects_circle(&diamond, &c));
    // Against the diamond, a circle sitting inside it still hits.
    assert!(obb_intersects_circle(&diamond, &circle(11, 0, 3)));
}

#[test]
fn degenerate_boxes_do_not_crash() {
    // A zero-area box is permitted: it behaves as its center point.
    let point_box = OBB {
        center: Vec2 { x: 5, y: 5 },
        half: Vec2 { x: 0, y: 0 },
        rotation: Rot::zero(),
    };
    assert!(obb_intersects_obb(&point_box, &point_box));
    assert!(obb_intersects_circle(&point_box, &circle(5, 5, 0)));
    assert!(!obb_intersects_circle(&point_box, &circle(9, 9, 1)));
}

#[test]
fn malformed_hitboxes_answer_false() {
    let good = Hitbox::Circle(circle(0, 0, 5));
    let negative_radius = Hitbox::Circle(Circle { center: Vec2 { x: 0, y: 0 }, radius: -5 });
    let negative_half = Hitbox::OBB(OBB {
        center: Vec2 { x: 0, y: 0 },
        half: Vec2 { x: -1, y: 2 },
        rotation: Rot::zero(),
    });
    let far_out = Hitbox::Circle(Circle { center: Vec2 { x: 9_000_000, y: 0 }, radius: 5 });
    assert!(!hitbox_intersects(&negative_radius, &good));
    assert!(!hitbox_intersects(&good, &negative_radius));
    assert!(!hitbox_intersects(&negative_half, &good));
    assert!(!hitbox_intersects(&far_out, &good));
    assert!(!hitbox_intersects(&negative_radius, &negative_radius));
}

#[test]
fn checked_constructors_reject_bad_inputs() {
    assert!(Circle::new(Vec2 { x: 0, y: 0 }, -5).is_none());
    assert!(Circle::new(Vec2 { x: 0, y: 0 }, 9000).is_none());
    assert!(Circle::new(Vec2 { x: 300_000, y: 0 }, 5).is_none());
    let c = Circle::new(Vec2 { x: 10, y: -10 }, 5);
    assert_eq!(c, Some(Circle { center: Vec2 { x: 10, y: -10 }, radius: 5 }));

    assert!(OBB::new(Vec2 { x: 0, y: 0 }, Vec2 { x: -1, y: 1 }, Rot::zero()).is_none());
    assert!(OBB::new(Vec2 { x: 0, y: 0 }, Vec2 { x: 1, y: 1 }, Rot { cos_q: 9000, sin_q: 0 })
        .is_none());
    let o = OBB::new(Vec2 { x: 1, y: 2 }, Vec2 { x: 3, y: 4 }, Rot::zero());
    assert!(o.is_some());
}
