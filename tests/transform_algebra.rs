use pax_runtime::geometry::{Affine, Size, SizePixels, UNIT};
use pax_runtime::transform::{Rotation, Transform2D};

fn centered_chain(rotation: Rotation) -> Transform2D {
    Transform2D::align(Size::Percent(50), Size::Percent(50))
        .compose(Transform2D::anchor(Size::Percent(50), Size::Percent(50)))
        .compose(Transform2D::rotate(rotation))
}

#[test]
fn centered_node_scenario() {
    let rotations = vec![
        Rotation::quarter_turns(0),
        Rotation::quarter_turns(1),
        Rotation::quarter_turns(2),
        Rotation { cos: 600_000, sin: 800_000 },
        Rotation { cos: -280_000, sin: 960_000 },
    ];
    for rotation in rotations {
        let t = centered_chain(rotation);
        let (base, align) = t.compute_transform_matrix((200, 200), (400, 400));
        assert_eq!(align, Affine::translate(200 * UNIT, 200 * UNIT));
        // The node's center is carried to the origin, then the align offset
        // places it at the container's center.
        assert_eq!(base.apply(100 * UNIT, 100 * UNIT), (0, 0));
        let full = align.then_after(&base);
        assert_eq!(full.apply(100 * UNIT, 100 * UNIT), (200 * UNIT, 200 * UNIT));
    }
}

#[test]
fn anchor_then_rotation_matrix() {
    let t = centered_chain(Rotation { cos: 600_000, sin: 800_000 });
    let (base, _) = t.compute_transform_matrix((200, 200), (400, 400));
    assert_eq!(
        base,
        Affine { a: 600_000, b: 800_000, c: -800_000, d: 600_000, e: 20_000_000, f: -140_000_000 }
    );
}

#[test]
fn composition_is_associative() {
    let a = || Transform2D::translate(5, -7).compose(Transform2D::scale(150, 50));
    let b = || Transform2D::rotate(Rotation { cos: 600_000, sin: -800_000 });
    let c = || Transform2D::anchor(Size::Pixels(3), Size::Percent(25));
    let left = a().compose(b()).compose(c());
    let right = a().compose(b().compose(c()));
    for (size, bounds) in [((10, 20), (100, 100)), ((333, 7), (1, 999)), ((0, 0), (0, 0))] {
        assert_eq!(
            left.compute_transform_matrix(size, bounds),
            right.compute_transform_matrix(size, bounds)
        );
    }
}

#[test]
fn align_comes_from_the_first_link() {
    let mut t = Transform2D::align(Size::Percent(25), Size::Percent(75));
    for k in 0..5 {
        t = t.compose(Transform2D::translate(k, k)).compose(Transform2D::scale(200, 200));
        let (_, align) = t.compute_transform_matrix((10, 10), (800, 400));
        assert_eq!(align, Affine::translate(200 * UNIT, 300 * UNIT));
    }
}

#[test]
fn nearest_align_wins() {
    let t = Transform2D::align(Size::Percent(25), Size::Percent(75))
        .compose(Transform2D::align(Size::Percent(100), Size::Percent(0)));
    let (_, align) = t.compute_transform_matrix((10, 10), (800, 400));
    assert_eq!(align, Affine::translate(800 * UNIT, 0));
}

#[test]
fn pixel_align_is_reported() {
    let t = Transform2D::align(Size::Pixels(3), Size::Percent(0)).compose(Transform2D::translate(1, 1));
    assert!(!t.aligns_are_percent());
    let ok = Transform2D::align(Size::Percent(3), Size::Percent(0));
    assert!(ok.aligns_are_percent());
}

#[test]
fn local_order_is_rotate_scale_translate() {
    let t = Transform2D {
        previous: None,
        rotate: Some(Rotation::quarter_turns(1)),
        translate: Some((10, 0)),
        anchor: None,
        align: None,
        scale: Some((200, 100)),
    };
    let (base, align) = t.compute_transform_matrix((0, 0), (0, 0));
    assert_eq!(align, Affine::identity());
    // The translation is applied first, then the scale, then the rotation.
    assert_eq!(base.apply(0, 0), (0, 20 * UNIT));
}

#[test]
fn size_resolution() {
    assert_eq!(Size::Pixels(42).get_pixels(1000), 42);
    assert_eq!(Size::Percent(50).get_pixels(300), 150);
    assert_eq!(Size::Percent(33).get_pixels(10), 3);
    assert_eq!(Size::Percent(-33).get_pixels(10), -4);
    assert_eq!(Size::Percent(100).evaluate((640, 480)), 640);
    assert_eq!(Size::Percent(50).get_units(200), 100 * UNIT);
    assert_eq!(Size::Pixels(i64::MAX).get_units(0), i64::MAX);
}

#[test]
fn size_chaining() {
    assert_eq!(Size::Pixels(10).mul(Size::Pixels(5)), Size::Pixels(15));
    assert_eq!(Size::Pixels(10).mul(Size::Percent(50)), Size::Pixels(500));
    assert_eq!(Size::Percent(50).mul(Size::Pixels(200)), Size::Pixels(10_000));
    assert_eq!(Size::Percent(50).mul(Size::Percent(50)), Size::Percent(2_500));
    assert_eq!(Size::Percent(i64::MIN).mul(Size::Percent(2)), Size::Percent(i64::MIN));
    assert_eq!(Size::Pixels(i64::MAX).mul(Size::Pixels(1)), Size::Pixels(i64::MAX));
}

#[test]
fn size_pixels_from_size() {
    assert_eq!(SizePixels::from_size(Size::Pixels(7)), SizePixels(7));
    assert_eq!(SizePixels::default(), SizePixels(150));
}

#[test]
fn affine_composition() {
    let t = Affine::translate(3 * UNIT, 4 * UNIT);
    let s = Affine::scale_non_uniform(2 * UNIT, UNIT / 2);
    assert_eq!(Affine::identity().then_after(&t), t);
    assert_eq!(t.then_after(&Affine::identity()), t);
    let ts = t.then_after(&s);
    assert_eq!(ts.apply(UNIT, 2 * UNIT), (5 * UNIT, 5 * UNIT));
    let st = s.then_after(&t);
    assert_eq!(st.apply(UNIT, 2 * UNIT), (8 * UNIT, 3 * UNIT));
    assert_eq!(Affine::default(), Affine::identity());
    assert_eq!(t.coefficients(), vec![UNIT, 0, 0, UNIT, 3 * UNIT, 4 * UNIT]);
}

#[test]
fn quarter_turn_rotation() {
    let r = Rotation::quarter_turns(1);
    let m = Affine::rotate(r.cos, r.sin);
    assert_eq!(m.apply(UNIT, 0), (0, UNIT));
    assert_eq!(Rotation::quarter_turns(6), Rotation { cos: -UNIT, sin: 0 });
}
