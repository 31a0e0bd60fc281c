use vstd::prelude::*;

verus! {

#[derive(Clone, Copy, PartialEq, Eq, Structural, Debug)]
pub enum MouseButton {
    Left,
    Right,
    Middle,
    Unknown,
}

#[derive(Clone, Copy, PartialEq, Eq, Structural, Debug)]
pub enum ModifierKey {
    Shift,
    Control,
    Alt,
    Command,
}

/// A mouse button as the host reports it.
#[derive(Clone, Copy, PartialEq, Eq, Structural, Debug)]
pub enum MouseButtonMessage {
    Left,
    Right,
    Middle,
    Unknown,
}

/// A modifier key as the host reports it.
#[derive(Clone, Copy, PartialEq, Eq, Structural, Debug)]
pub enum ModifierKeyMessage {
    Shift,
    Control,
    Alt,
    Command,
}

pub open spec fn button_of(m: MouseButtonMessage) -> MouseButton {
    match m {
        MouseButtonMessage::Left => MouseButton::Left,
        MouseButtonMessage::Right => MouseButton::Right,
        MouseButtonMessage::Middle => MouseButton::Middle,
        MouseButtonMessage::Unknown => MouseButton::Unknown,
    }
}

pub open spec fn modifier_of(m: ModifierKeyMessage) -> ModifierKey {
    match m {
        ModifierKeyMessage::Shift => ModifierKey::Shift,
        ModifierKeyMessage::Control => ModifierKey::Control,
        ModifierKeyMessage::Alt => ModifierKey::Alt,
        ModifierKeyMessage::Command => ModifierKey::Command,
    }
}

impl MouseButton {
    pub fn from_message(value: MouseButtonMessage) -> (r: MouseButton)
        ensures
            r == button_of(value),
    {
        match value {
            MouseButtonMessage::Left => MouseButton::Left,
            MouseButtonMessage::Right => MouseButton::Right,
            MouseButtonMessage::Middle => MouseButton::Middle,
            MouseButtonMessage::Unknown => MouseButton::Unknown,
        }
    }
}

impl ModifierKey {
    pub fn from_message(value: &ModifierKeyMessage) -> (r: ModifierKey)
        ensures
            r == modifier_of(*value),
    {
        match value {
            ModifierKeyMessage::Shift => ModifierKey::Shift,
            ModifierKeyMessage::Control => ModifierKey::Control,
            ModifierKeyMessage::Alt => ModifierKey::Alt,
            ModifierKeyMessage::Command => ModifierKey::Command,
        }
    }
}

/// The modifiers of `ms`, in order.
pub fn modifiers_of(ms: &Vec<ModifierKeyMessage>) -> (r: Vec<ModifierKey>)
    ensures
        r@ == ms@.map_values(|m: ModifierKeyMessage| modifier_of(m)),
{
    let mut r: Vec<ModifierKey> = Vec::new();
    let mut i: usize = 0;
    while i < ms.len()
        invariant
            0 <= i <= ms@.len(),
            r@ == ms@.subrange(0, i as int).map_values(|m: ModifierKeyMessage| modifier_of(m)),
        decreases ms@.len() - i,
    {
        r.push(ModifierKey::from_message(&ms[i]));
        i = i + 1;
        proof {
            assert(r@ =~= ms@.subrange(0, i as int).map_values(|m: ModifierKeyMessage| modifier_of(m)));
        }
    }
    proof {
        assert(ms@.subrange(0, ms@.len() as int) =~= ms@);
    }
    r
}

/// Input from the host: a key with its modifiers.
pub struct KeyInterruptArgs {
    pub key: String,
    pub modifiers: Vec<ModifierKeyMessage>,
    pub is_repeat: bool,
}

/// Input from the host: a pointer position in pixels, a button and modifiers.
pub struct PointerInterruptArgs {
    pub x: i64,
    pub y: i64,
    pub button: MouseButtonMessage,
    pub modifiers: Vec<ModifierKeyMessage>,
}

/// One touch point as the host reports it, in pixels.
#[derive(Clone, Copy, PartialEq, Eq, Structural, Debug)]
pub struct TouchMessage {
    pub x: i64,
    pub y: i64,
    pub identifier: i64,
    pub delta_x: i64,
    pub delta_y: i64,
}

pub type KeyDownInterruptArgs = KeyInterruptArgs;

pub type KeyUpInterruptArgs = KeyInterruptArgs;

pub type KeyPressInterruptArgs = KeyInterruptArgs;

pub type ClickInterruptArgs = PointerInterruptArgs;

pub type DoubleClickInterruptArgs = PointerInterruptArgs;

pub type MouseMoveInterruptArgs = PointerInterruptArgs;

pub type MouseDownInterruptArgs = PointerInterruptArgs;

pub type MouseUpInterruptArgs = PointerInterruptArgs;

pub type MouseOverInterruptArgs = PointerInterruptArgs;

pub type MouseOutInterruptArgs = PointerInterruptArgs;

pub type ContextMenuInterruptArgs = PointerInterruptArgs;

/// Input from the host: the touch points of a touch event.
pub struct TouchInterruptArgs {
    pub touches: Vec<TouchMessage>,
}

pub type TouchStartInterruptArgs = TouchInterruptArgs;

pub type TouchMoveInterruptArgs = TouchInterruptArgs;

pub type TouchEndInterruptArgs = TouchInterruptArgs;

pub struct JabInterruptArgs {
    pub x: i64,
    pub y: i64,
}

pub struct ScrollInterruptArgs {
    pub delta_x: i64,
    pub delta_y: i64,
}

pub struct WheelInterruptArgs {
    pub x: i64,
    pub y: i64,
    pub delta_x: i64,
    pub delta_y: i64,
    pub modifiers: Vec<ModifierKeyMessage>,
}

/// A loaded image, handed over by address or described by its size.
pub enum ImageLoadInterruptArgs {
    Reference(ImagePointerArgs),
    Data(ImageDataArgs),
}

pub struct ImagePointerArgs {
    pub id_chain: Vec<u32>,
    pub image_data: u64,
    pub image_data_length: usize,
    pub width: usize,
    pub height: usize,
}

pub struct ImageDataArgs {
    pub id_chain: Vec<u32>,
    pub width: usize,
    pub height: usize,
}

pub struct AddedLayerArgs {
    pub num_layers_added: u32,
}

/// One record of the inbound interrupt stream.
pub enum NativeInterrupt {
    Jab(JabInterruptArgs),
    Scroll(ScrollInterruptArgs),
    TouchStart(TouchStartInterruptArgs),
    TouchMove(TouchMoveInterruptArgs),
    TouchEnd(TouchEndInterruptArgs),
    KeyDown(KeyDownInterruptArgs),
    KeyUp(KeyUpInterruptArgs),
    KeyPress(KeyPressInterruptArgs),
    Click(ClickInterruptArgs),
    DoubleClick(DoubleClickInterruptArgs),
    MouseMove(MouseMoveInterruptArgs),
    Wheel(WheelInterruptArgs),
    MouseDown(MouseDownInterruptArgs),
    MouseUp(MouseUpInterruptArgs),
    MouseOver(MouseOverInterruptArgs),
    MouseOut(MouseOutInterruptArgs),
    ContextMenu(ContextMenuInterruptArgs),
    Image(ImageLoadInterruptArgs),
    AddedLayer(AddedLayerArgs),
}

/// A jab: a click, or a tap with one finger.
pub struct ArgsJab {
    pub x: i64,
    pub y: i64,
}

/// A frame translated by touch, mouse or keyboard.
pub struct ArgsScroll {
    pub delta_x: i64,
    pub delta_y: i64,
}

/// One touch point.
#[derive(Clone, Copy, PartialEq, Eq, Structural, Debug)]
pub struct Touch {
    pub x: i64,
    pub y: i64,
    pub identifier: i64,
    pub delta_x: i64,
    pub delta_y: i64,
}

impl Touch {
    pub fn from_message(value: &TouchMessage) -> (r: Touch)
        ensures
            r == touch_of(*value),
    {
        Touch {
            x: value.x,
            y: value.y,
            identifier: value.identifier,
            delta_x: value.delta_x,
            delta_y: value.delta_y,
        }
    }
}

pub open spec fn touch_of(t: TouchMessage) -> Touch {
    Touch { x: t.x, y: t.y, identifier: t.identifier, delta_x: t.delta_x, delta_y: t.delta_y }
}

pub fn touches_of(ts: &Vec<TouchMessage>) -> (r: Vec<Touch>)
    ensures
        r@ == ts@.map_values(|t: TouchMessage| touch_of(t)),
{
    let mut r: Vec<Touch> = Vec::new();
    let mut i: usize = 0;
    while i < ts.len()
        invariant
            0 <= i <= ts@.len(),
            r@ == ts@.subrange(0, i as int).map_values(|t: TouchMessage| touch_of(t)),
        decreases ts@.len() - i,
    {
        r.push(Touch::from_message(&ts[i]));
        i = i + 1;
        proof {
            assert(r@ =~= ts@.subrange(0, i as int).map_values(|t: TouchMessage| touch_of(t)));
        }
    }
    proof {
        assert(ts@.subrange(0, ts@.len() as int) =~= ts@);
    }
    r
}

pub struct ArgsTouchStart {
    pub touches: Vec<Touch>,
}

pub struct ArgsTouchMove {
    pub touches: Vec<Touch>,
}

pub struct ArgsTouchEnd {
    pub touches: Vec<Touch>,
}

/// What every keyboard event carries.
pub struct KeyboardEventArgs {
    pub key: String,
    pub modifiers: Vec<ModifierKey>,
    pub is_repeat: bool,
}

impl KeyboardEventArgs {
    pub fn from_interrupt(args: &KeyInterruptArgs) -> (r: KeyboardEventArgs)
        ensures
            r.key@ == args.key@,
            r.modifiers@ == args.modifiers@.map_values(|m: ModifierKeyMessage| modifier_of(m)),
            r.is_repeat == args.is_repeat,
    {
        KeyboardEventArgs {
            key: args.key.clone(),
            modifiers: modifiers_of(&args.modifiers),
            is_repeat: args.is_repeat,
        }
    }
}

/// A key is pressed.
pub struct ArgsKeyDown {
    pub keyboard: KeyboardEventArgs,
}

/// A key is released.
pub struct ArgsKeyUp {
    pub keyboard: KeyboardEventArgs,
}

/// A key that produces a character is pressed.
pub struct ArgsKeyPress {
    pub keyboard: KeyboardEventArgs,
}

/// What every mouse event carries.
pub struct MouseEventArgs {
    pub x: i64,
    pub y: i64,
    pub button: MouseButton,
    pub modifiers: Vec<ModifierKey>,
}

impl MouseEventArgs {
    pub fn from_interrupt(args: &PointerInterruptArgs) -> (r: MouseEventArgs)
        ensures
            r.x == args.x,
            r.y == args.y,
            r.button == button_of(args.button),
            r.modifiers@ == args.modifiers@.map_values(|m: ModifierKeyMessage| modifier_of(m)),
    {
        MouseEventArgs {
            x: args.x,
            y: args.y,
            button: MouseButton::from_message(args.button),
            modifiers: modifiers_of(&args.modifiers),
        }
    }
}

/// A mouse button clicked over an element.
pub struct ArgsClick {
    pub mouse: MouseEventArgs,
}

/// A mouse button double-clicked over an element.
pub struct ArgsDoubleClick {
    pub mouse: MouseEventArgs,
}

/// The mouse moved over an element.
pub struct ArgsMouseMove {
    pub mouse: MouseEventArgs,
}

/// A mouse button pressed over an element.
pub struct ArgsMouseDown {
    pub mouse: MouseEventArgs,
}

/// A mouse button released over an element.
pub struct ArgsMouseUp {
    pub mouse: MouseEventArgs,
}

/// The mouse moved onto an element.
pub struct ArgsMouseOver {
    pub mouse: MouseEventArgs,
}

/// The mouse moved off an element.
pub struct ArgsMouseOut {
    pub mouse: MouseEventArgs,
}

/// An element was right-clicked to open its context menu.
pub struct ArgsContextMenu {
    pub mouse: MouseEventArgs,
}

/// A mouse wheel turned over an element.
pub struct ArgsWheel {
    pub x: i64,
    pub y: i64,
    pub delta_x: i64,
    pub delta_y: i64,
    pub modifiers: Vec<ModifierKey>,
}

/// An input event for the handlers of a node.
pub enum Event {
    Jab(ArgsJab),
    Scroll(ArgsScroll),
    TouchStart(ArgsTouchStart),
    TouchMove(ArgsTouchMove),
    TouchEnd(ArgsTouchEnd),
    KeyDown(ArgsKeyDown),
    KeyUp(ArgsKeyUp),
    KeyPress(ArgsKeyPress),
    Click(ArgsClick),
    DoubleClick(ArgsDoubleClick),
    MouseMove(ArgsMouseMove),
    Wheel(ArgsWheel),
    MouseDown(ArgsMouseDown),
    MouseUp(ArgsMouseUp),
    MouseOver(ArgsMouseOver),
    MouseOut(ArgsMouseOut),
    ContextMenu(ArgsContextMenu),
}

pub open spec fn keyboard_matches(e: KeyboardEventArgs, a: KeyInterruptArgs) -> bool {
    e.key@ == a.key@ && e.modifiers@ == a.modifiers@.map_values(
        |m: ModifierKeyMessage| modifier_of(m),
    ) && e.is_repeat == a.is_repeat
}

pub open spec fn mouse_matches(e: MouseEventArgs, a: PointerInterruptArgs) -> bool {
    e.x == a.x && e.y == a.y && e.button == button_of(a.button) && e.modifiers@
        == a.modifiers@.map_values(|m: ModifierKeyMessage| modifier_of(m))
}

pub open spec fn touches_match(e: Vec<Touch>, a: Vec<TouchMessage>) -> bool {
    e@ == a@.map_values(|t: TouchMessage| touch_of(t))
}

/// `e` is the event that interrupt `i` stands for.
pub open spec fn event_matches(e: Event, i: NativeInterrupt) -> bool {
    match (e, i) {
        (Event::Jab(e), NativeInterrupt::Jab(a)) => e.x == a.x && e.y == a.y,
        (Event::Scroll(e), NativeInterrupt::Scroll(a)) => e.delta_x == a.delta_x && e.delta_y
            == a.delta_y,
        (Event::TouchStart(e), NativeInterrupt::TouchStart(a)) => touches_match(e.touches, a.touches),
        (Event::TouchMove(e), NativeInterrupt::TouchMove(a)) => touches_match(e.touches, a.touches),
        (Event::TouchEnd(e), NativeInterrupt::TouchEnd(a)) => touches_match(e.touches, a.touches),
        (Event::KeyDown(e), NativeInterrupt::KeyDown(a)) => keyboard_matches(e.keyboard, a),
        (Event::KeyUp(e), NativeInterrupt::KeyUp(a)) => keyboard_matches(e.keyboard, a),
        (Event::KeyPress(e), NativeInterrupt::KeyPress(a)) => keyboard_matches(e.keyboard, a),
        (Event::Click(e), NativeInterrupt::Click(a)) => mouse_matches(e.mouse, a),
        (Event::DoubleClick(e), NativeInterrupt::DoubleClick(a)) => mouse_matches(e.mouse, a),
        (Event::MouseMove(e), NativeInterrupt::MouseMove(a)) => mouse_matches(e.mouse, a),
        (Event::Wheel(e), NativeInterrupt::Wheel(a)) => e.x == a.x && e.y == a.y && e.delta_x
            == a.delta_x && e.delta_y == a.delta_y && e.modifiers@ == a.modifiers@.map_values(
            |m: ModifierKeyMessage| modifier_of(m),
        ),
        (Event::MouseDown(e), NativeInterrupt::MouseDown(a)) => mouse_matches(e.mouse, a),
        (Event::MouseUp(e), NativeInterrupt::MouseUp(a)) => mouse_matches(e.mouse, a),
        (Event::MouseOver(e), NativeInterrupt::MouseOver(a)) => mouse_matches(e.mouse, a),
        (Event::MouseOut(e), NativeInterrupt::MouseOut(a)) => mouse_matches(e.mouse, a),
        (Event::ContextMenu(e), NativeInterrupt::ContextMenu(a)) => mouse_matches(e.mouse, a),
        _ => false,
    }
}

/// The event for the handlers that an interrupt stands for; image loads and
/// added layers are engine bookkeeping and give none.
pub fn event_of(i: &NativeInterrupt) -> (r: Option<Event>)
    ensures
        r is None <==> (i is Image || i is AddedLayer),
        r is Some ==> event_matches(r.unwrap(), *i),
{
    match i {
        NativeInterrupt::Jab(a) => Some(Event::Jab(ArgsJab { x: a.x, y: a.y })),
        NativeInterrupt::Scroll(a) => Some(
            Event::Scroll(ArgsScroll { delta_x: a.delta_x, delta_y: a.delta_y }),
        ),
        NativeInterrupt::TouchStart(a) => Some(
            Event::TouchStart(ArgsTouchStart { touches: touches_of(&a.touches) }),
        ),
        NativeInterrupt::TouchMove(a) => Some(
            Event::TouchMove(ArgsTouchMove { touches: touches_of(&a.touches) }),
        ),
        NativeInterrupt::TouchEnd(a) => Some(Event::TouchEnd(ArgsTouchEnd { touches: touches_of(&a.touches) })),
        NativeInterrupt::KeyDown(a) => Some(
            Event::KeyDown(ArgsKeyDown { keyboard: KeyboardEventArgs::from_interrupt(a) }),
        ),
        NativeInterrupt::KeyUp(a) => Some(
            Event::KeyUp(ArgsKeyUp { keyboard: KeyboardEventArgs::from_interrupt(a) }),
        ),
        NativeInterrupt::KeyPress(a) => Some(
            Event::KeyPress(ArgsKeyPress { keyboard: KeyboardEventArgs::from_interrupt(a) }),
        ),
        NativeInterrupt::Click(a) => Some(Event::Click(ArgsClick { mouse: MouseEventArgs::from_interrupt(a) })),
        NativeInterrupt::DoubleClick(a) => Some(Event::DoubleClick(ArgsDoubleClick { mouse: MouseEventArgs::from_interrupt(a) })),
        NativeInterrupt::MouseMove(a) => Some(Event::MouseMove(ArgsMouseMove { mouse: MouseEventArgs::from_interrupt(a) })),
        NativeInterrupt::Wheel(a) => Some(
            Event::Wheel(
                ArgsWheel {
                    x: a.x,
                    y: a.y,
                    delta_x: a.delta_x,
                    delta_y: a.delta_y,
                    modifiers: modifiers_of(&a.modifiers),
                },
            ),
        ),
        NativeInterrupt::MouseDown(a) => Some(Event::MouseDown(ArgsMouseDown { mouse: MouseEventArgs::from_interrupt(a) })),
        NativeInterrupt::MouseUp(a) => Some(Event::MouseUp(ArgsMouseUp { mouse: MouseEventArgs::from_interrupt(a) })),
        NativeInterrupt::MouseOver(a) => Some(Event::MouseOver(ArgsMouseOver { mouse: MouseEventArgs::from_interrupt(a) })),
        NativeInterrupt::MouseOut(a) => Some(Event::MouseOut(ArgsMouseOut { mouse: MouseEventArgs::from_interrupt(a) })),
        NativeInterrupt::ContextMenu(a) => Some(
            Event::ContextMenu(ArgsContextMenu { mouse: MouseEventArgs::from_interrupt(a) }),
        ),
        NativeInterrupt::Image(_) => None,
        NativeInterrupt::AddedLayer(_) => None,
    }
}

} // verus!
