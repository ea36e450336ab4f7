use libwinit::events::{
    encode_character, negate_bits, EventProcessor, NativeElementState, NativeEvent,
    NativeKeyboardInput, NativeMouseButton, NativeScrollDelta, NativeTouchPhase,
    NativeWindowEvent, WinitEvent, WinitEventInputElementState, WinitEventModifiersState,
    WinitEventMouseButtonType, WinitEventMouseScrollDeltaType, WinitEventTouchPhase,
    WinitEventType, UNLABELED_KEY_CODE,
};
use libwinit::WinitUserEvent;

fn window_event(window_id: u128, event: NativeWindowEvent) -> NativeEvent {
    NativeEvent::WindowEvent { window_id, event }
}

fn translate(processor: &mut EventProcessor, event: NativeEvent) -> (WinitEvent, bool) {
    let mut record = WinitEvent::default();
    let consumed = processor.process(event, &mut record);
    (record, consumed)
}

fn key(scan_code: u32, state: NativeElementState, virtual_keycode: Option<u32>) -> NativeEvent {
    window_event(
        7,
        NativeWindowEvent::KeyboardInput {
            device_id: 1,
            input: NativeKeyboardInput { scan_code, state, virtual_keycode },
            is_synthetic: false,
        },
    )
}

#[test]
fn scroll_line_delta_negates_horizontal() {
    let mut processor = EventProcessor::new();
    let event = window_event(
        3,
        NativeWindowEvent::MouseWheel {
            device_id: 9,
            delta: NativeScrollDelta::LineDelta {
                x: 2.0f64.to_bits(),
                y: 3.0f64.to_bits(),
            },
            phase: NativeTouchPhase::Moved,
        },
    );
    let (record, consumed) = translate(&mut processor, event);
    assert!(consumed);
    assert_eq!(record.event_type, WinitEventType::WindowEventMouseWheel);
    assert_eq!(record.window_id, 3);
    assert_eq!(
        record.mouse_wheel.delta.delta_type,
        WinitEventMouseScrollDeltaType::LineDelta
    );
    assert_eq!(f64::from_bits(record.mouse_wheel.delta.x), -2.0);
    assert_eq!(f64::from_bits(record.mouse_wheel.delta.y), 3.0);
    assert_eq!(record.mouse_wheel.phase, WinitEventTouchPhase::Moved);
    assert_eq!(record.mouse_wheel.device_id, 9);
}

#[test]
fn scroll_pixel_delta_is_distinguished() {
    let mut processor = EventProcessor::new();
    let event = window_event(
        3,
        NativeWindowEvent::MouseWheel {
            device_id: 0,
            delta: NativeScrollDelta::PixelDelta {
                x: (-4.5f64).to_bits(),
                y: 1.25f64.to_bits(),
            },
            phase: NativeTouchPhase::Started,
        },
    );
    let (record, _) = translate(&mut processor, event);
    assert_eq!(
        record.mouse_wheel.delta.delta_type,
        WinitEventMouseScrollDeltaType::PixelDelta
    );
    assert_eq!(f64::from_bits(record.mouse_wheel.delta.x), 4.5);
    assert_eq!(f64::from_bits(record.mouse_wheel.delta.y), 1.25);
}

#[test]
fn negate_bits_flips_sign() {
    assert_eq!(negate_bits(0), 0x8000_0000_0000_0000);
    assert_eq!(negate_bits(0x8000_0000_0000_0000), 0);
    assert_eq!(f64::from_bits(negate_bits(1.5f64.to_bits())), -1.5);
    assert_eq!(f64::from_bits(negate_bits((-7.0f64).to_bits())), 7.0);
}

#[test]
fn two_byte_character_leaves_rest_zero() {
    let mut processor = EventProcessor::new();
    let (record, consumed) =
        translate(&mut processor, window_event(5, NativeWindowEvent::ReceivedCharacter('é')));
    assert!(consumed);
    assert_eq!(record.event_type, WinitEventType::WindowEventReceivedCharacter);
    let c = record.received_character;
    assert_eq!(c.length, 2);
    assert_eq!((c.byte_1, c.byte_2), (0xC3, 0xA9));
    assert_eq!((c.byte_3, c.byte_4), (0, 0));
}

#[test]
fn character_encodings_match_std() {
    for ch in ['a', '\u{7f}', '\u{80}', 'é', '\u{7ff}', '\u{800}', '€', '\u{ffff}', '\u{10000}', '😀', '\u{10ffff}'] {
        let record = encode_character(ch);
        let mut buffer = [0u8; 4];
        let expected = ch.encode_utf8(&mut buffer).as_bytes().to_vec();
        assert_eq!(record.length, expected.len());
        let bytes = [record.byte_1, record.byte_2, record.byte_3, record.byte_4];
        assert_eq!(&bytes[..record.length], &expected[..]);
        assert!(bytes[record.length..].iter().all(|b| *b == 0));
    }
}

#[test]
fn release_without_code_reports_pressed_code() {
    let mut processor = EventProcessor::new();
    let (pressed, _) = translate(&mut processor, key(30, NativeElementState::Pressed, Some(10)));
    assert!(pressed.keyboard_input.has_virtual_keycode);
    assert_eq!(pressed.keyboard_input.virtual_keycode, 10);
    assert_eq!(pressed.keyboard_input.state, WinitEventInputElementState::Pressed);
    let (released, consumed) =
        translate(&mut processor, key(30, NativeElementState::Released, None));
    assert!(consumed);
    assert_eq!(released.event_type, WinitEventType::WindowEventKeyboardInput);
    assert_eq!(released.keyboard_input.state, WinitEventInputElementState::Released);
    assert!(released.keyboard_input.has_virtual_keycode);
    assert_eq!(released.keyboard_input.virtual_keycode, 10);
    assert_eq!(released.keyboard_input.scan_code, 30);
    assert!(processor.key_buffer.is_empty());
}

#[test]
fn first_recorded_code_wins_for_a_scan_code() {
    let mut processor = EventProcessor::new();
    translate(&mut processor, key(30, NativeElementState::Pressed, Some(10)));
    let (repeat, _) = translate(&mut processor, key(30, NativeElementState::Pressed, Some(11)));
    assert_eq!(repeat.keyboard_input.virtual_keycode, 10);
    let (released, _) = translate(&mut processor, key(30, NativeElementState::Released, Some(12)));
    assert_eq!(released.keyboard_input.virtual_keycode, 10);
    let (unknown, _) = translate(&mut processor, key(30, NativeElementState::Released, Some(12)));
    assert_eq!(unknown.keyboard_input.virtual_keycode, 12);
}

#[test]
fn key_without_any_code_reports_none() {
    let mut processor = EventProcessor::new();
    let (pressed, _) = translate(&mut processor, key(44, NativeElementState::Pressed, None));
    assert!(!pressed.keyboard_input.has_virtual_keycode);
    assert_eq!(pressed.keyboard_input.virtual_keycode, UNLABELED_KEY_CODE);
    let (released, _) = translate(&mut processor, key(44, NativeElementState::Released, None));
    assert!(!released.keyboard_input.has_virtual_keycode);
}

#[test]
fn device_and_unhandled_events_are_not_consumed() {
    let mut processor = EventProcessor::new();
    assert!(!translate(&mut processor, NativeEvent::DeviceEvent).1);
    assert!(!translate(&mut processor, window_event(1, NativeWindowEvent::Other)).1);
    assert!(!translate(&mut processor, window_event(1, NativeWindowEvent::ImeCommit(vec!['a']))).1);
}

#[test]
fn enumerated_events_are_consumed() {
    let mut processor = EventProcessor::new();
    let cases = vec![
        (NativeEvent::NewEvents, WinitEventType::NewEvents),
        (NativeEvent::MainEventsCleared, WinitEventType::MainEventsCleared),
        (NativeEvent::RedrawEventsCleared, WinitEventType::RedrawEventsCleared),
        (NativeEvent::LoopDestroyed, WinitEventType::LoopDestroyed),
        (NativeEvent::Suspended, WinitEventType::Suspended),
        (NativeEvent::Resumed, WinitEventType::Resumed),
        (NativeEvent::RedrawRequested(4), WinitEventType::RedrawRequested),
        (NativeEvent::UserEvent(WinitUserEvent::WakeUp), WinitEventType::UserEvent),
        (window_event(4, NativeWindowEvent::Resized { width: 1, height: 2 }), WinitEventType::WindowEventResized),
        (window_event(4, NativeWindowEvent::Moved { x: -3, y: 4 }), WinitEventType::WindowEventMoved),
        (window_event(4, NativeWindowEvent::CloseRequested), WinitEventType::WindowEventCloseRequested),
        (window_event(4, NativeWindowEvent::Destroyed), WinitEventType::WindowEventDestroyed),
        (window_event(4, NativeWindowEvent::Focused(true)), WinitEventType::WindowEventFocused),
        (
            window_event(4, NativeWindowEvent::ScaleFactorChanged { scale_factor: 2.0f64.to_bits(), width: 5, height: 6 }),
            WinitEventType::WindowEventScaleFactorChanged,
        ),
        (
            window_event(4, NativeWindowEvent::Touch { device_id: 1, phase: NativeTouchPhase::Ended, x: 0, y: 0, id: 8 }),
            WinitEventType::WindowEventTouch,
        ),
        (
            window_event(4, NativeWindowEvent::MouseInput { device_id: 1, state: NativeElementState::Pressed, button: NativeMouseButton::Left }),
            WinitEventType::WindowEventMouseInput,
        ),
        (window_event(4, NativeWindowEvent::CursorMoved { device_id: 1, x: 0, y: 0 }), WinitEventType::WindowEventCursorMoved),
        (window_event(4, NativeWindowEvent::CursorEntered { device_id: 1 }), WinitEventType::WindowEventCursorEntered),
        (window_event(4, NativeWindowEvent::CursorLeft { device_id: 1 }), WinitEventType::WindowEventCursorLeft),
        (window_event(4, NativeWindowEvent::ReceivedCharacter('x')), WinitEventType::WindowEventReceivedCharacter),
        (
            window_event(4, NativeWindowEvent::ModifiersChanged(WinitEventModifiersState { shift: true, ctrl: false, alt: true, logo: false })),
            WinitEventType::ModifiersChanged,
        ),
    ];
    for (event, kind) in cases {
        let (record, consumed) = translate(&mut processor, event);
        assert!(consumed);
        assert_eq!(record.event_type, kind);
    }
}

#[test]
fn window_identity_is_carried() {
    let mut processor = EventProcessor::new();
    let id: u128 = 0x1234_5678_9abc_def0_1122_3344_5566_7788;
    let (record, _) = translate(&mut processor, window_event(id, NativeWindowEvent::Moved { x: 10, y: -20 }));
    assert_eq!(record.window_id, id);
    assert_eq!((record.window_moved.x, record.window_moved.y), (10, -20));
    let (redraw, _) = translate(&mut processor, NativeEvent::RedrawRequested(id));
    assert_eq!(redraw.window_id, id);
    let (global, _) = translate(&mut processor, NativeEvent::Resumed);
    assert_eq!(global.window_id, 0);
}

#[test]
fn mouse_buttons_get_codes() {
    let mut processor = EventProcessor::new();
    let cases = [
        (NativeMouseButton::Left, WinitEventMouseButtonType::Left, 0),
        (NativeMouseButton::Right, WinitEventMouseButtonType::Right, 1),
        (NativeMouseButton::Middle, WinitEventMouseButtonType::Middle, 2),
        (NativeMouseButton::Other(17), WinitEventMouseButtonType::Other, 17),
    ];
    for (button, kind, code) in cases {
        let event = window_event(1, NativeWindowEvent::MouseInput { device_id: 2, state: NativeElementState::Released, button });
        let (record, _) = translate(&mut processor, event);
        assert_eq!(record.mouse_input.button.button_type, kind);
        assert_eq!(record.mouse_input.button.button_code, code);
        assert_eq!(record.mouse_input.state, WinitEventInputElementState::Released);
    }
}

#[test]
fn unused_payloads_stay_default() {
    let mut processor = EventProcessor::new();
    let (record, _) = translate(&mut processor, window_event(2, NativeWindowEvent::Resized { width: 640, height: 480 }));
    let expected = WinitEvent {
        window_id: 2,
        event_type: WinitEventType::WindowEventResized,
        window_resized: libwinit::events::WinitWindowResizedEvent { width: 640, height: 480 },
        ..WinitEvent::default()
    };
    assert_eq!(record, expected);
}
