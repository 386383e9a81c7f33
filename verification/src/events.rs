use vstd::prelude::*;

verus! {

/// Which mouse button a boundary pointer event carries, in the
/// representation the host hands across the call boundary.
#[derive(Clone, Copy, PartialEq, Eq, Structural, Debug)]
pub enum CGOPointerButton {
    PointerButtonNone,
    PointerButtonLeft,
    PointerButtonRight,
    PointerButtonMiddle,
}

/// A pointer input event as the host hands it across the boundary.
#[derive(Clone, Copy, PartialEq, Eq, Structural, Debug)]
pub struct Pointer {
    pub x: u16,
    pub y: u16,
    pub button: CGOPointerButton,
    pub down: bool,
}

/// A keyboard input event (a raw scancode) as the host hands it
/// across the boundary.
#[derive(Clone, Copy, PartialEq, Eq, Structural, Debug)]
pub struct Key {
    pub code: u16,
    pub down: bool,
}

/// Which mouse button a protocol pointer event carries.
#[derive(Clone, Copy, PartialEq, Eq, Structural, Debug)]
pub enum PointerButton {
    /// No button: the event is a plain move.
    NoButton,
    Left,
    Right,
    Middle,
}

/// A pointer event in the protocol library's representation: the same
/// coordinates and pressed flag, with the button renamed into the
/// protocol's enumeration.
#[derive(Clone, Copy, PartialEq, Eq, Structural, Debug)]
pub struct PointerEvent {
    pub x: u16,
    pub y: u16,
    pub button: PointerButton,
    pub down: bool,
}

/// A keyboard event in the protocol library's representation.
#[derive(Clone, Copy, PartialEq, Eq, Structural, Debug)]
pub struct KeyboardEvent {
    pub code: u16,
    pub down: bool,
}

/// The protocol button that stands for each boundary button.
pub open spec fn button_of(b: CGOPointerButton) -> PointerButton {
    match b {
        CGOPointerButton::PointerButtonNone => PointerButton::NoButton,
        CGOPointerButton::PointerButtonLeft => PointerButton::Left,
        CGOPointerButton::PointerButtonRight => PointerButton::Right,
        CGOPointerButton::PointerButtonMiddle => PointerButton::Middle,
    }
}

impl core::convert::From<Pointer> for PointerEvent {
    /// Translates a boundary pointer event into the protocol
    /// representation: coordinates and pressed flag unchanged, the
    /// button mapped one-to-one.
    fn from(p: Pointer) -> (e: PointerEvent) {
        PointerEvent {
            x: p.x,
            y: p.y,
            button: match p.button {
                CGOPointerButton::PointerButtonNone => PointerButton::NoButton,
                CGOPointerButton::PointerButtonLeft => PointerButton::Left,
                CGOPointerButton::PointerButtonRight => PointerButton::Right,
                CGOPointerButton::PointerButtonMiddle => PointerButton::Middle,
            },
            down: p.down,
        }
    }
}

impl vstd::std_specs::convert::FromSpecImpl<Pointer> for PointerEvent {
    open spec fn obeys_from_spec() -> bool {
        true
    }

    open spec fn from_spec(p: Pointer) -> PointerEvent {
        PointerEvent { x: p.x, y: p.y, button: button_of(p.button), down: p.down }
    }
}

impl core::convert::From<Key> for KeyboardEvent {
    /// Translates a boundary keyboard event into the protocol
    /// representation: scancode and pressed flag unchanged.
    fn from(k: Key) -> (e: KeyboardEvent) {
        KeyboardEvent { code: k.code, down: k.down }
    }
}

impl vstd::std_specs::convert::FromSpecImpl<Key> for KeyboardEvent {
    open spec fn obeys_from_spec() -> bool {
        true
    }

    open spec fn from_spec(k: Key) -> KeyboardEvent {
        KeyboardEvent { code: k.code, down: k.down }
    }
}

} // verus!
