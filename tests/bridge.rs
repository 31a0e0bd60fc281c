use pax_runtime::coproduct::{PropertiesCoproduct, TypesCoproduct};
use pax_runtime::events::{
    event_of, AddedLayerArgs, Event, KeyInterruptArgs, ModifierKey, ModifierKeyMessage,
    MouseButton, MouseButtonMessage, NativeInterrupt, PointerInterruptArgs, TouchInterruptArgs,
    TouchMessage,
};
use pax_runtime::geometry::Size;
use pax_runtime::zindex::{Layer, ZIndex};
use std::rc::Rc;

#[test]
fn location_ids() {
    assert_eq!(ZIndex::generate_location_id(Some(vec![1, 2]), 3), "[1, 2]_3");
    assert_eq!(ZIndex::generate_location_id(Some(vec![]), 0), "[]_0");
    assert_eq!(ZIndex::generate_location_id(None, 42), "42");
    assert_eq!(ZIndex::generate_location_id(Some(vec![4294967295]), 10), "[4294967295]_10");
}

#[test]
fn z_levels() {
    let mut z = ZIndex::new(None);
    assert_eq!(z.get_level(), 0);
    assert_eq!(z.get_current_layer(), Layer::Canvas);
    z.update_z_index(Layer::Native);
    assert_eq!(z.get_level(), 0);
    assert_eq!(z.get_current_layer(), Layer::Native);
    z.update_z_index(Layer::Canvas);
    assert_eq!(z.get_level(), 1);
    z.update_z_index(Layer::DontCare);
    assert_eq!(z.get_level(), 1);
    assert_eq!(z.get_current_layer(), Layer::Canvas);
    z.update_z_index(Layer::Canvas);
    assert_eq!(z.get_level(), 1);
    z.update_z_index(Layer::Scroller);
    assert_eq!(z.get_level(), 2);
}

#[test]
fn pointer_interrupt_becomes_click() {
    let i = NativeInterrupt::Click(PointerInterruptArgs {
        x: 3,
        y: 4,
        button: MouseButtonMessage::Right,
        modifiers: vec![ModifierKeyMessage::Shift, ModifierKeyMessage::Command],
    });
    match event_of(&i) {
        Some(Event::Click(c)) => {
            assert_eq!((c.mouse.x, c.mouse.y), (3, 4));
            assert_eq!(c.mouse.button, MouseButton::Right);
            assert_eq!(c.mouse.modifiers, vec![ModifierKey::Shift, ModifierKey::Command]);
        },
        _ => panic!("expected a click"),
    }
}

#[test]
fn key_and_touch_interrupts() {
    let k = NativeInterrupt::KeyPress(KeyInterruptArgs {
        key: String::from("q"),
        modifiers: vec![ModifierKeyMessage::Alt],
        is_repeat: true,
    });
    match event_of(&k) {
        Some(Event::KeyPress(a)) => {
            assert_eq!(a.keyboard.key, "q");
            assert_eq!(a.keyboard.modifiers, vec![ModifierKey::Alt]);
            assert!(a.keyboard.is_repeat);
        },
        _ => panic!("expected a key press"),
    }
    let t = NativeInterrupt::TouchMove(TouchInterruptArgs {
        touches: vec![TouchMessage { x: 1, y: 2, identifier: 7, delta_x: 3, delta_y: 4 }],
    });
    match event_of(&t) {
        Some(Event::TouchMove(a)) => {
            assert_eq!(a.touches.len(), 1);
            assert_eq!(a.touches[0].delta_x, 3);
            assert_eq!(a.touches[0].delta_y, 4);
            assert_eq!(a.touches[0].identifier, 7);
        },
        _ => panic!("expected a touch move"),
    }
    assert!(event_of(&NativeInterrupt::AddedLayer(AddedLayerArgs { num_layers_added: 1 })).is_none());
}

#[test]
fn coproduct_access() {
    let item = PropertiesCoproduct::RepeatItem(Rc::new(PropertiesCoproduct::Integer(5)), 3);
    assert_eq!(item.repeat_index(), Some(3));
    assert_eq!(item.expect_repeat_index(), 3);
    assert!(matches!(item.repeat_datum().as_deref(), Some(PropertiesCoproduct::Integer(5))));
    assert_eq!(PropertiesCoproduct::Empty.repeat_index(), None);
    assert_eq!(TypesCoproduct::Integer(9).expect_integer(), 9);
    assert_eq!(TypesCoproduct::Size(Size::Percent(4)).expect_size(), Size::Percent(4));
    assert_eq!(TypesCoproduct::Text(String::from("t")).expect_text(), "t");
}
