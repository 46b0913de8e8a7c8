use torifune::device::{
    KeyboardEvent, KeyboardListener, KeyCode, KeyDispatch, KeyInputDevice, KeyPoll, KeyStatus,
    MouseButton, MouseButtonEvent, MouseButtonStatus, MouseDispatch, MouseListener, MousePoll,
    ProgramableGenericKey, ProgramableKey, VirtualKey,
};
use torifune::numeric::Point2;

fn mouse_poll(
    left: MouseButtonStatus,
    middle: MouseButtonStatus,
    right: MouseButtonStatus,
    position: Point2,
) -> MousePoll {
    MousePoll { left, middle, right, position }
}

#[test]
fn click_records_position_at_release_detection() {
    let mut listener = MouseListener::new();
    listener.register_event_handler(MouseButton::Left, MouseButtonEvent::Clicked, 42);
    let released = MouseButtonStatus::MouseReleased;
    let pressed = MouseButtonStatus::MousePressed;

    let d1 = listener.update(&mouse_poll(released, released, released, Point2::new(0, 0)), 0);
    assert_eq!(d1.len(), 0);
    let d2 = listener.update(&mouse_poll(pressed, released, released, Point2::new(5, 5)), 1);
    assert_eq!(d2.len(), 0); // only a clicked handler is registered
    let d3 = listener.update(&mouse_poll(released, released, released, Point2::new(9, 9)), 2);
    assert_eq!(
        d3,
        vec![MouseDispatch { button: MouseButton::Left, event: MouseButtonEvent::Clicked, handler: 42 }],
    );
    assert_eq!(listener.get_last_clicked(MouseButton::Left), Point2::new(9, 9));
    assert_eq!(listener.get_last_clicked(MouseButton::Right), Point2::new(0, 0));
}

#[test]
fn mouse_alternating_polls_raise_press_then_click_only() {
    let mut listener = MouseListener::new();
    listener.register_event_handler(MouseButton::Left, MouseButtonEvent::Pressed, 1);
    listener.register_event_handler(MouseButton::Left, MouseButtonEvent::Clicked, 2);
    listener.register_event_handler(MouseButton::Left, MouseButtonEvent::Dragged, 3);
    let released = MouseButtonStatus::MouseReleased;
    let pressed = MouseButtonStatus::MousePressed;

    let mut events: Vec<MouseButtonEvent> = Vec::new();
    for poll in [
        mouse_poll(released, released, released, Point2::new(0, 0)),
        mouse_poll(pressed, released, released, Point2::new(0, 0)),
        mouse_poll(released, released, released, Point2::new(0, 0)),
    ] {
        for d in listener.update(&poll, 0) {
            events.push(d.event);
        }
    }
    assert_eq!(events, vec![MouseButtonEvent::Pressed, MouseButtonEvent::Clicked]);
}

#[test]
fn held_button_drags_each_tick() {
    let mut listener = MouseListener::new();
    listener.register_event_handler(MouseButton::Right, MouseButtonEvent::Dragged, 5);
    let released = MouseButtonStatus::MouseReleased;
    let pressed = MouseButtonStatus::MousePressed;
    listener.update(&mouse_poll(released, released, pressed, Point2::new(0, 0)), 0);
    let d = listener.update(&mouse_poll(released, released, pressed, Point2::new(0, 0)), 1);
    assert_eq!(
        d,
        vec![MouseDispatch { button: MouseButton::Right, event: MouseButtonEvent::Dragged, handler: 5 }],
    );
}

fn key_poll_single(pressed_key: Option<VirtualKey>) -> KeyPoll {
    let mut row = vec![KeyStatus::Released; 25];
    if let Some(k) = pressed_key {
        row[k.index()] = KeyStatus::Pressed;
    }
    KeyPoll { statuses: vec![row] }
}

#[test]
fn keyboard_alternating_polls_raise_first_press_then_typed() {
    let mut listener = KeyboardListener::new_masked(
        vec![KeyInputDevice::GenericKeyboard],
        vec![VirtualKey::Action1],
    );
    listener.register_event_handler(VirtualKey::Action1, KeyboardEvent::FirstPressed, 7);
    listener.register_event_handler(VirtualKey::Action1, KeyboardEvent::Typed, 8);

    let d1 = listener.update(&key_poll_single(None), 0);
    assert_eq!(d1.len(), 0); // keep-released has no handler
    let d2 = listener.update(&key_poll_single(Some(VirtualKey::Action1)), 1);
    assert_eq!(
        d2,
        vec![KeyDispatch { key: VirtualKey::Action1, event: KeyboardEvent::FirstPressed, handler: 7 }],
    );
    let d3 = listener.update(&key_poll_single(None), 2);
    assert_eq!(
        d3,
        vec![KeyDispatch { key: VirtualKey::Action1, event: KeyboardEvent::Typed, handler: 8 }],
    );
}

#[test]
fn unmasked_listener_tracks_every_key() {
    let mut listener = KeyboardListener::new(vec![KeyInputDevice::GenericKeyboard]);
    listener.register_event_handler(VirtualKey::Left, KeyboardEvent::KeepReleased, 1);
    let d = listener.update(&key_poll_single(None), 0);
    assert_eq!(d.len(), 1);
    assert_eq!(d[0].key, VirtualKey::Left);
    assert_eq!(d[0].event, KeyboardEvent::KeepReleased);
}

#[test]
fn key_status_mixes_across_devices() {
    let listener = KeyboardListener::new_masked(
        vec![KeyInputDevice::GenericKeyboard, KeyInputDevice::PS3Controller],
        vec![VirtualKey::Up],
    );
    let mut row1 = vec![KeyStatus::Released; 25];
    let row2 = {
        let mut r = vec![KeyStatus::Released; 25];
        r[VirtualKey::Up.index()] = KeyStatus::Pressed;
        r
    };
    row1[VirtualKey::Down.index()] = KeyStatus::Pressed;
    let poll = KeyPoll { statuses: vec![row1, row2] };
    assert_eq!(listener.current_key_status(&poll, &VirtualKey::Up), KeyStatus::Pressed);
    assert_eq!(listener.current_key_status(&poll, &VirtualKey::Left), KeyStatus::Released);
    assert_eq!(listener.current_key_status(&poll, &VirtualKey::Down), KeyStatus::Pressed);
}

#[test]
fn virtual_key_indices_round_trip() {
    for i in 0..25 {
        let k = VirtualKey::from_i32(i);
        assert_eq!(k.index(), i as usize);
    }
    assert_eq!(VirtualKey::from_i32(-1), VirtualKey::Unknown);
    assert_eq!(VirtualKey::from_i32(99), VirtualKey::Unknown);
}

#[test]
fn key_status_logic_helpers() {
    assert_eq!(KeyStatus::positive_logic(true), KeyStatus::Pressed);
    assert_eq!(KeyStatus::positive_logic(false), KeyStatus::Released);
    assert_eq!(KeyStatus::negative_logic(true), KeyStatus::Released);
    assert_eq!(KeyStatus::negative_logic(false), KeyStatus::Pressed);
}

#[test]
fn keymap_lookups_and_rebinding() {
    let mut map = ProgramableGenericKey::new();
    assert_eq!(map.real_to_virtual(KeyCode::Z), VirtualKey::Action1);
    assert_eq!(map.virtual_to_real(VirtualKey::Action1), KeyCode::Z);
    map.update_config(KeyCode::Z, VirtualKey::Left);
    assert_eq!(map.real_to_virtual(KeyCode::Z), VirtualKey::Left);
    assert_eq!(map.virtual_to_real(VirtualKey::Left), KeyCode::Left);
}

#[test]
fn empty_keymap_reads_unknown() {
    let map = ProgramableGenericKey { key_map: vec![] };
    assert_eq!(map.real_to_virtual(KeyCode::Z), VirtualKey::Unknown);
}
