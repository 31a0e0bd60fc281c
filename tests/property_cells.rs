use pax_runtime::easing::EasingCurve;
use pax_runtime::geometry::{Size, UNIT};
use pax_runtime::property::{Interpolatable, PropertyLiteral};

#[test]
fn ease_to_keeps_value_until_ticked() {
    let mut p = PropertyLiteral::new(10i64);
    p.ease_to(20, 10, EasingCurve::Linear);
    assert_eq!(*p.get(), 10);
    assert!(p.is_transitioning());
    let q = &p.get_transition_manager().queue;
    assert_eq!(q.len(), 1);
    assert_eq!(q[0].starting_value, 10);
    assert_eq!(q[0].ending_value, 20);
    assert_eq!(q[0].global_frame_started, None);
}

#[test]
fn transition_boundaries() {
    let mut p = PropertyLiteral::new(10i64);
    p.ease_to(20, 10, EasingCurve::Linear);
    p.tick_transition(100);
    assert_eq!(*p.get(), 10);
    assert_eq!(p.get_transition_manager().queue[0].global_frame_started, Some(100));
    p.tick_transition(90);
    assert_eq!(*p.get(), 10);
    p.tick_transition(105);
    assert_eq!(*p.get(), 15);
    p.tick_transition(110);
    assert_eq!(*p.get(), 20);
    assert!(!p.is_transitioning());
}

#[test]
fn end_value_is_exact_for_every_curve() {
    let curves = [
        EasingCurve::Linear,
        EasingCurve::InQuad,
        EasingCurve::OutQuad,
        EasingCurve::InBack,
        EasingCurve::OutBack,
        EasingCurve::InOutBack,
    ];
    for curve in curves {
        let mut p = PropertyLiteral::new(-7i64);
        p.ease_to(1234, 3, curve);
        p.tick_transition(50);
        assert_eq!(*p.get(), -7);
        p.tick_transition(53);
        assert_eq!(*p.get(), 1234);
    }
}

#[test]
fn ease_to_later_chains_entries() {
    let mut p = PropertyLiteral::new(0i64);
    p.ease_to_later(10, 5, EasingCurve::Linear);
    p.ease_to_later(30, 5, EasingCurve::InQuad);
    assert_eq!(*p.get(), 0);
    let q = &p.get_transition_manager().queue;
    assert_eq!(q.len(), 2);
    assert_eq!(q[0].starting_value, 0);
    assert_eq!(q[0].ending_value, 10);
    assert_eq!(q[1].starting_value, q[0].ending_value);
    assert_eq!(q[1].ending_value, 30);
}

#[test]
fn queue_runs_in_order() {
    let mut p = PropertyLiteral::new(0i64);
    p.ease_to_later(10, 2, EasingCurve::Linear);
    p.ease_to_later(30, 4, EasingCurve::Linear);
    p.tick_transition(1);
    assert_eq!(*p.get(), 0);
    p.tick_transition(2);
    assert_eq!(*p.get(), 5);
    p.tick_transition(3);
    assert_eq!(*p.get(), 10);
    // The second transition starts at tick 3.
    assert_eq!(p.get_transition_manager().queue[0].global_frame_started, Some(3));
    p.tick_transition(5);
    assert_eq!(*p.get(), 20);
    p.tick_transition(7);
    assert_eq!(*p.get(), 30);
    assert!(!p.is_transitioning());
}

#[test]
fn ease_to_replaces_the_queue() {
    let mut p = PropertyLiteral::new(0i64);
    p.ease_to_later(10, 2, EasingCurve::Linear);
    p.ease_to_later(30, 4, EasingCurve::Linear);
    p.set(5);
    p.ease_to(50, 1, EasingCurve::OutQuad);
    let q = &p.get_transition_manager().queue;
    assert_eq!(q.len(), 1);
    assert_eq!(q[0].starting_value, 5);
    assert_eq!(q[0].ending_value, 50);
}

#[test]
fn zero_duration_completes_at_once() {
    let mut p = PropertyLiteral::new(1i64);
    p.ease_to(9, 0, EasingCurve::Linear);
    p.tick_transition(4);
    assert_eq!(*p.get(), 9);
    assert!(!p.is_transitioning());
}

#[test]
fn computed_value_wins_over_queue() {
    let mut p = PropertyLiteral::new(0i64);
    p.ease_to(100, 10, EasingCurve::Linear);
    p.apply_computed(Some(42), 0);
    assert_eq!(*p.get(), 42);
    assert!(p.is_transitioning());
    p.apply_computed(None, 5);
    assert_eq!(*p.get(), 0);
    p.apply_computed(None, 10);
    assert_eq!(*p.get(), 50);
}

#[test]
fn easing_values() {
    assert_eq!(EasingCurve::Linear.ease(250_000), 250_000);
    assert_eq!(EasingCurve::InQuad.ease(500_000), 250_000);
    assert_eq!(EasingCurve::OutQuad.ease(500_000), 750_000);
    assert_eq!(EasingCurve::InBack.ease(500_000), -87_698);
    assert_eq!(EasingCurve::OutBack.ease(500_000), 1_087_697);
    assert_eq!(EasingCurve::InOutBack.ease(250_000), -99_682);
    assert_eq!(EasingCurve::InOutBack.ease(750_000), 1_099_681);
    for curve in [EasingCurve::InBack, EasingCurve::OutBack, EasingCurve::InOutBack, EasingCurve::OutQuad] {
        assert_eq!(curve.ease(0), 0);
        assert_eq!(curve.ease(UNIT), UNIT);
    }
}

#[test]
fn integer_interpolation() {
    assert_eq!(10i64.interpolate(&20, 500_000), 15);
    assert_eq!(20i64.interpolate(&10, 500_000), 15);
    assert_eq!(20i64.interpolate(&10, 333_333), 16);
    assert_eq!(0i64.interpolate(&100, -87_698), -9);
    assert_eq!(i64::MAX.interpolate(&i64::MIN, 0), i64::MAX);
    assert_eq!(i64::MAX.interpolate(&i64::MIN, UNIT), i64::MIN);
    assert_eq!(0i64.interpolate(&i64::MAX, 2 * UNIT), i64::MAX);
}

#[test]
fn size_and_step_interpolation() {
    assert_eq!(Size::Pixels(0).interpolate(&Size::Pixels(100), 250_000), Size::Pixels(25));
    assert_eq!(Size::Percent(10).interpolate(&Size::Percent(20), 500_000), Size::Percent(15));
    assert_eq!(Size::Pixels(0).interpolate(&Size::Percent(100), 999_999), Size::Pixels(0));
    assert_eq!(Size::Pixels(0).interpolate(&Size::Percent(100), UNIT), Size::Percent(100));
    assert!(!false.interpolate(&true, 999_999));
    assert!(false.interpolate(&true, UNIT));
    let a = String::from("A");
    let b = String::from("B");
    assert_eq!(a.interpolate(&b, 500_000), "A");
    assert_eq!(a.interpolate(&b, UNIT), "B");
}

#[test]
fn string_cell_transition() {
    let mut p = PropertyLiteral::new(String::from("start"));
    p.ease_to(String::from("end"), 4, EasingCurve::Linear);
    p.tick_transition(0);
    assert_eq!(p.get(), "start");
    p.tick_transition(2);
    assert_eq!(p.get(), "start");
    p.tick_transition(4);
    assert_eq!(p.get(), "end");
}

#[test]
fn optional_interpolation() {
    assert_eq!(Some(0i64).interpolate(&Some(10), 500_000), Some(5));
    assert_eq!(Some(3i64).interpolate(&None, 500_000), Some(3));
    assert_eq!(Some(3i64).interpolate(&None, UNIT), None);
    assert_eq!(None.interpolate(&Some(4i64), UNIT), Some(4));
}

#[test]
fn vector_interpolation() {
    let a = vec![0i64, 10, -10];
    let b = vec![100i64, 10, 10];
    assert_eq!(pax_runtime::property::interpolate_vec(&a, &b, 500_000), vec![50, 10, 0]);
    assert_eq!(pax_runtime::property::interpolate_vec(&a, &b, UNIT), b);
}

#[test]
fn narrow_integer_interpolation() {
    assert_eq!(10u8.interpolate(&20, 500_000), 15);
    assert_eq!(0u8.interpolate(&255, 2 * UNIT), 255);
    assert_eq!(200u8.interpolate(&100, 3 * UNIT), 0);
    assert_eq!((-128i8).interpolate(&127, UNIT), 127);
    assert_eq!(0i32.interpolate(&-10, 250_000), -3);
    assert_eq!(u64::MAX.interpolate(&0, UNIT), 0);
    assert_eq!(7usize.interpolate(&9, 0), 7);
    assert_eq!((-4isize).interpolate(&4, 500_000), 0);
    assert_eq!(1000u16.interpolate(&2000, 100_000), 1100);
    assert_eq!(5u32.interpolate(&1, UNIT), 1);
    assert_eq!(3i16.interpolate(&3, 700_000), 3);
}
