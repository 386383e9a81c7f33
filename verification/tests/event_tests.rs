use rdpclient::events::{CGOPointerButton, Key, KeyboardEvent, Pointer, PointerButton, PointerEvent};

#[test]
fn pointer_down_left_translates_exactly() {
    let p = Pointer { x: 10, y: 20, button: CGOPointerButton::PointerButtonLeft, down: true };
    let e = PointerEvent::from(p);
    assert_eq!(e, PointerEvent { x: 10, y: 20, button: PointerButton::Left, down: true });
}

#[test]
fn every_button_maps_one_to_one() {
    let cases = [
        (CGOPointerButton::PointerButtonNone, PointerButton::NoButton),
        (CGOPointerButton::PointerButtonLeft, PointerButton::Left),
        (CGOPointerButton::PointerButtonRight, PointerButton::Right),
        (CGOPointerButton::PointerButtonMiddle, PointerButton::Middle),
    ];
    for (boundary, protocol) in cases {
        let e = PointerEvent::from(Pointer { x: 1, y: 2, button: boundary, down: false });
        assert_eq!(e.button, protocol);
        assert_eq!((e.x, e.y, e.down), (1, 2, false));
    }
}

#[test]
fn keyboard_translates_exactly() {
    let e = KeyboardEvent::from(Key { code: 0x1c, down: true });
    assert_eq!(e, KeyboardEvent { code: 0x1c, down: true });
    let up = KeyboardEvent::from(Key { code: 57, down: false });
    assert_eq!(up, KeyboardEvent { code: 57, down: false });
}
