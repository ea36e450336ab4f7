use std::collections::HashMap;
use vstd::prelude::*;

use crate::enums::WinitUserEvent;

verus! {

broadcast use vstd::std_specs::hash::group_hash_axioms;

/// The code reported for a key that has no virtual key code (the native `Unlabeled` key).
pub const UNLABELED_KEY_CODE: u32 = 148;

/// The sign bit of an IEEE-754 binary64 value.
pub const SIGN_BIT: u64 = 0x8000_0000_0000_0000;

// ---------------------------------------------------------------------------
// The flat event record handed to the foreign caller.
//
// Floating-point values travel as their IEEE-754 binary64 bit patterns
// (`f64::to_bits`); zero bits are the value `0.0`.
// ---------------------------------------------------------------------------

/// The discriminant of a translated event.
#[derive(Debug, Copy, Clone, PartialEq, Eq, Structural)]
pub enum WinitEventType {
    Unknown,
    WindowEventResized,
    WindowEventMoved,
    WindowEventCloseRequested,
    WindowEventDestroyed,
    WindowEventDroppedFile,
    WindowEventHoveredFile,
    WindowEventHoveredFileCancelled,
    WindowEventReceivedCharacter,
    WindowEventFocused,
    WindowEventKeyboardInput,
    WindowEventCursorMoved,
    WindowEventCursorEntered,
    WindowEventCursorLeft,
    WindowEventMouseWheel,
    WindowEventMouseInput,
    WindowEventTouchpadPressure,
    WindowEventAxisMotion,
    WindowEventTouch,
    WindowEventScaleFactorChanged,
    NewEvents,
    MainEventsCleared,
    LoopDestroyed,
    Suspended,
    Resumed,
    RedrawRequested,
    RedrawEventsCleared,
    ModifiersChanged,
    UserEvent,
}

#[derive(Debug, Copy, Clone, PartialEq, Eq, Structural)]
pub enum WinitEventMouseButtonType {
    Unknown,
    Left,
    Right,
    Middle,
    Other,
}

#[derive(Debug, Copy, Clone, PartialEq, Eq, Structural)]
pub enum WinitEventTouchPhase {
    Unknown,
    Started,
    Moved,
    Ended,
    Cancelled,
}

#[derive(Debug, Copy, Clone, PartialEq, Eq, Structural)]
pub enum WinitEventMouseScrollDeltaType {
    Unknown,
    LineDelta,
    PixelDelta,
}

#[derive(Debug, Copy, Clone, PartialEq, Eq, Structural)]
pub enum WinitEventInputElementState {
    Unknown,
    Pressed,
    Released,
}

#[derive(Debug, Copy, Clone, PartialEq, Eq, Structural)]
pub struct WinitTouchEvent {
    pub device_id: i64,
    pub phase: WinitEventTouchPhase,
    /// Bits of the horizontal location.
    pub x: u64,
    /// Bits of the vertical location.
    pub y: u64,
    /// Unique identifier of a finger.
    pub id: u64,
}

#[derive(Debug, Copy, Clone, PartialEq, Eq, Structural)]
pub struct WinitMouseScrollDelta {
    pub delta_type: WinitEventMouseScrollDeltaType,
    /// Bits of the horizontal delta, positive to the right.
    pub x: u64,
    /// Bits of the vertical delta.
    pub y: u64,
}

#[derive(Debug, Copy, Clone, PartialEq, Eq, Structural)]
pub struct WinitMouseWheelEvent {
    pub device_id: i64,
    pub phase: WinitEventTouchPhase,
    pub delta: WinitMouseScrollDelta,
}

#[derive(Debug, Copy, Clone, PartialEq, Eq, Structural)]
pub struct WinitEventMouseButton {
    pub button_type: WinitEventMouseButtonType,
    pub button_code: u16,
}

#[derive(Debug, Copy, Clone, PartialEq, Eq, Structural)]
pub struct WinitMouseInputEvent {
    pub device_id: i64,
    pub state: WinitEventInputElementState,
    pub button: WinitEventMouseButton,
}

#[derive(Debug, Copy, Clone, PartialEq, Eq, Structural)]
pub struct WinitCursorMovedEvent {
    pub device_id: i64,
    /// Bits of the horizontal position.
    pub x: u64,
    /// Bits of the vertical position.
    pub y: u64,
}

#[derive(Debug, Copy, Clone, PartialEq, Eq, Structural)]
pub struct WinitWindowResizedEvent {
    pub width: u32,
    pub height: u32,
}

#[derive(Debug, Copy, Clone, PartialEq, Eq, Structural)]
pub struct WinitWindowScaleFactorChangedEvent {
    /// Bits of the new scale factor.
    pub scale_factor: u64,
    pub width: u32,
    pub height: u32,
}

#[derive(Debug, Copy, Clone, PartialEq, Eq, Structural)]
pub struct WinitWindowMovedEvent {
    pub x: i32,
    pub y: i32,
}

#[derive(Debug, Copy, Clone, PartialEq, Eq, Structural)]
pub struct WinitWindowFocusedEvent {
    pub is_focused: bool,
}

#[derive(Debug, Copy, Clone, PartialEq, Eq, Structural)]
pub struct WinitEventKeyboardInput {
    pub device_id: i64,
    pub scan_code: u32,
    pub state: WinitEventInputElementState,
    pub has_virtual_keycode: bool,
    pub virtual_keycode: u32,
    pub is_synthetic: bool,
}

/// A character as its UTF-8 encoding: `length` bytes, the rest zero.
#[derive(Debug, Copy, Clone, PartialEq, Eq, Structural)]
pub struct WinitEventReceivedCharacter {
    pub length: usize,
    pub byte_1: u8,
    pub byte_2: u8,
    pub byte_3: u8,
    pub byte_4: u8,
}

#[derive(Debug, Copy, Clone, PartialEq, Eq, Structural)]
pub struct WinitEventModifiersState {
    /// The "shift" key.
    pub shift: bool,
    /// The "control" key.
    pub ctrl: bool,
    /// The "alt" key.
    pub alt: bool,
    /// The "logo" key: "windows" on a PC, "command" on a Mac.
    pub logo: bool,
}

#[derive(Debug, Copy, Clone, PartialEq, Eq, Structural)]
pub struct WinitEventUserEvent {
    pub event: WinitUserEvent,
}

/// A translated event: a discriminant and the payload that it selects.
/// Payloads that the discriminant does not select hold their default values.
#[derive(Debug, Copy, Clone, PartialEq, Eq, Structural)]
pub struct WinitEvent {
    pub window_id: u128,
    pub event_type: WinitEventType,
    pub touch: WinitTouchEvent,
    pub mouse_wheel: WinitMouseWheelEvent,
    pub mouse_input: WinitMouseInputEvent,
    pub cursor_moved: WinitCursorMovedEvent,
    pub keyboard_input: WinitEventKeyboardInput,
    pub received_character: WinitEventReceivedCharacter,
    pub window_resized: WinitWindowResizedEvent,
    pub scale_factor: WinitWindowScaleFactorChangedEvent,
    pub window_moved: WinitWindowMovedEvent,
    pub window_focused: WinitWindowFocusedEvent,
    pub modifiers: WinitEventModifiersState,
    pub user_event: WinitEventUserEvent,
}

impl Default for WinitEventKeyboardInput {
    /// No device, no scan code, no virtual key code (reported as the unlabeled key).
    fn default() -> (r: Self)
        ensures
            r == blank_event().keyboard_input,
    {
        WinitEventKeyboardInput {
            device_id: 0,
            scan_code: 0,
            state: WinitEventInputElementState::Unknown,
            has_virtual_keycode: false,
            virtual_keycode: UNLABELED_KEY_CODE,
            is_synthetic: false,
        }
    }
}

/// The record with every field at its default: no window, kind `Unknown`, zero payloads.
pub open spec fn blank_event() -> WinitEvent {
    WinitEvent {
        window_id: 0,
        event_type: WinitEventType::Unknown,
        touch: WinitTouchEvent {
            device_id: 0,
            phase: WinitEventTouchPhase::Unknown,
            x: 0,
            y: 0,
            id: 0,
        },
        mouse_wheel: WinitMouseWheelEvent {
            device_id: 0,
            phase: WinitEventTouchPhase::Unknown,
            delta: WinitMouseScrollDelta {
                delta_type: WinitEventMouseScrollDeltaType::Unknown,
                x: 0,
                y: 0,
            },
        },
        mouse_input: WinitMouseInputEvent {
            device_id: 0,
            state: WinitEventInputElementState::Unknown,
            button: WinitEventMouseButton {
                button_type: WinitEventMouseButtonType::Unknown,
                button_code: 0,
            },
        },
        cursor_moved: WinitCursorMovedEvent { device_id: 0, x: 0, y: 0 },
        keyboard_input: WinitEventKeyboardInput {
            device_id: 0,
            scan_code: 0,
            state: WinitEventInputElementState::Unknown,
            has_virtual_keycode: false,
            virtual_keycode: UNLABELED_KEY_CODE,
            is_synthetic: false,
        },
        received_character: WinitEventReceivedCharacter {
            length: 0,
            byte_1: 0,
            byte_2: 0,
            byte_3: 0,
            byte_4: 0,
        },
        window_resized: WinitWindowResizedEvent { width: 0, height: 0 },
        scale_factor: WinitWindowScaleFactorChangedEvent { scale_factor: 0, width: 0, height: 0 },
        window_moved: WinitWindowMovedEvent { x: 0, y: 0 },
        window_focused: WinitWindowFocusedEvent { is_focused: false },
        modifiers: WinitEventModifiersState { shift: false, ctrl: false, alt: false, logo: false },
        user_event: WinitEventUserEvent { event: WinitUserEvent::WakeUp },
    }
}

impl Default for WinitEvent {
    fn default() -> (r: Self)
        ensures
            r == blank_event(),
    {
        WinitEvent {
            window_id: 0,
            event_type: WinitEventType::Unknown,
            touch: WinitTouchEvent {
                device_id: 0,
                phase: WinitEventTouchPhase::Unknown,
                x: 0,
                y: 0,
                id: 0,
            },
            mouse_wheel: WinitMouseWheelEvent {
                device_id: 0,
                phase: WinitEventTouchPhase::Unknown,
                delta: WinitMouseScrollDelta {
                    delta_type: WinitEventMouseScrollDeltaType::Unknown,
                    x: 0,
                    y: 0,
                },
            },
            mouse_input: WinitMouseInputEvent {
                device_id: 0,
                state: WinitEventInputElementState::Unknown,
                button: WinitEventMouseButton {
                    button_type: WinitEventMouseButtonType::Unknown,
                    button_code: 0,
                },
            },
            cursor_moved: WinitCursorMovedEvent { device_id: 0, x: 0, y: 0 },
            keyboard_input: WinitEventKeyboardInput {
                device_id: 0,
                scan_code: 0,
                state: WinitEventInputElementState::Unknown,
                has_virtual_keycode: false,
                virtual_keycode: UNLABELED_KEY_CODE,
                is_synthetic: false,
            },
            received_character: WinitEventReceivedCharacter {
                length: 0,
                byte_1: 0,
                byte_2: 0,
                byte_3: 0,
                byte_4: 0,
            },
            window_resized: WinitWindowResizedEvent { width: 0, height: 0 },
            scale_factor: WinitWindowScaleFactorChangedEvent {
                scale_factor: 0,
                width: 0,
                height: 0,
            },
            window_moved: WinitWindowMovedEvent { x: 0, y: 0 },
            window_focused: WinitWindowFocusedEvent { is_focused: false },
            modifiers: WinitEventModifiersState {
                shift: false,
                ctrl: false,
                alt: false,
                logo: false,
            },
            user_event: WinitEventUserEvent { event: WinitUserEvent::WakeUp },
        }
    }
}


// ---------------------------------------------------------------------------
// The native events, as plain values.
// ---------------------------------------------------------------------------

/// The phase of a touch or of a wheel gesture.
#[derive(Debug, Copy, Clone, PartialEq, Eq, Structural)]
pub enum NativeTouchPhase {
    Started,
    Moved,
    Ended,
    Cancelled,
}

/// Whether a key or a button went down or up.
#[derive(Debug, Copy, Clone, PartialEq, Eq, Structural)]
pub enum NativeElementState {
    Pressed,
    Released,
}

#[derive(Debug, Copy, Clone, PartialEq, Eq, Structural)]
pub enum NativeMouseButton {
    Left,
    Right,
    Middle,
    Other(u16),
}

/// A scroll amount, its components as binary64 bit patterns in the native sign convention.
#[derive(Debug, Copy, Clone, PartialEq, Eq, Structural)]
pub enum NativeScrollDelta {
    /// Lines and rows to scroll.
    LineDelta { x: u64, y: u64 },
    /// Pixels to scroll.
    PixelDelta { x: u64, y: u64 },
}

/// A key press or release. Some platforms omit the virtual key code on release.
#[derive(Debug, Copy, Clone, PartialEq, Eq, Structural)]
pub struct NativeKeyboardInput {
    pub scan_code: u32,
    pub state: NativeElementState,
    pub virtual_keycode: Option<u32>,
}

/// An event that concerns one window.
#[derive(Debug, Clone)]
pub enum NativeWindowEvent {
    Resized { width: u32, height: u32 },
    Moved { x: i32, y: i32 },
    CloseRequested,
    Destroyed,
    Focused(bool),
    /// `scale_factor` as a binary64 bit pattern.
    ScaleFactorChanged { scale_factor: u64, width: u32, height: u32 },
    /// The location as binary64 bit patterns.
    Touch { device_id: i64, phase: NativeTouchPhase, x: u64, y: u64, id: u64 },
    MouseInput { device_id: i64, state: NativeElementState, button: NativeMouseButton },
    /// The position as binary64 bit patterns.
    CursorMoved { device_id: i64, x: u64, y: u64 },
    CursorEntered { device_id: i64 },
    CursorLeft { device_id: i64 },
    MouseWheel { device_id: i64, delta: NativeScrollDelta, phase: NativeTouchPhase },
    KeyboardInput { device_id: i64, input: NativeKeyboardInput, is_synthetic: bool },
    ReceivedCharacter(char),
    ModifiersChanged(WinitEventModifiersState),
    /// Text committed by an input method.
    ImeCommit(Vec<char>),
    /// Any other window event: files dropped or hovered, pressure, themes, and so on.
    Other,
}

/// An event of the native loop.
#[derive(Debug, Clone)]
pub enum NativeEvent {
    NewEvents,
    WindowEvent { window_id: u128, event: NativeWindowEvent },
    /// A raw device event.
    DeviceEvent,
    UserEvent(WinitUserEvent),
    Suspended,
    Resumed,
    MainEventsCleared,
    RedrawRequested(u128),
    RedrawEventsCleared,
    LoopDestroyed,
}

// ---------------------------------------------------------------------------
// What a translation produces.
// ---------------------------------------------------------------------------

/// Negation of a binary64 value given by its bits: the sign bit flips.
pub open spec fn negated(bits: u64) -> u64 {
    if bits >= SIGN_BIT {
        (bits - SIGN_BIT) as u64
    } else {
        (bits + SIGN_BIT) as u64
    }
}

pub open spec fn touch_phase(phase: NativeTouchPhase) -> WinitEventTouchPhase {
    match phase {
        NativeTouchPhase::Started => WinitEventTouchPhase::Started,
        NativeTouchPhase::Moved => WinitEventTouchPhase::Moved,
        NativeTouchPhase::Ended => WinitEventTouchPhase::Ended,
        NativeTouchPhase::Cancelled => WinitEventTouchPhase::Cancelled,
    }
}

pub open spec fn element_state(state: NativeElementState) -> WinitEventInputElementState {
    match state {
        NativeElementState::Pressed => WinitEventInputElementState::Pressed,
        NativeElementState::Released => WinitEventInputElementState::Released,
    }
}

/// Left, right and middle buttons have the codes 0, 1 and 2; others keep their own code.
pub open spec fn mouse_button(button: NativeMouseButton) -> WinitEventMouseButton {
    match button {
        NativeMouseButton::Left => WinitEventMouseButton {
            button_type: WinitEventMouseButtonType::Left,
            button_code: 0,
        },
        NativeMouseButton::Right => WinitEventMouseButton {
            button_type: WinitEventMouseButtonType::Right,
            button_code: 1,
        },
        NativeMouseButton::Middle => WinitEventMouseButton {
            button_type: WinitEventMouseButtonType::Middle,
            button_code: 2,
        },
        NativeMouseButton::Other(code) => WinitEventMouseButton {
            button_type: WinitEventMouseButtonType::Other,
            button_code: code,
        },
    }
}

/// The horizontal component is negated, the vertical one kept, the kind preserved.
pub open spec fn scroll_delta(delta: NativeScrollDelta) -> WinitMouseScrollDelta {
    match delta {
        NativeScrollDelta::LineDelta { x, y } => WinitMouseScrollDelta {
            delta_type: WinitEventMouseScrollDeltaType::LineDelta,
            x: negated(x),
            y,
        },
        NativeScrollDelta::PixelDelta { x, y } => WinitMouseScrollDelta {
            delta_type: WinitEventMouseScrollDeltaType::PixelDelta,
            x: negated(x),
            y,
        },
    }
}

/// The UTF-8 encoding of one code point.
pub open spec fn utf8_encoding(c: char) -> Seq<u8> {
    let v = c as u32;
    if v < 0x80 {
        seq![v as u8]
    } else if v < 0x800 {
        seq![(0xC0 + v / 64) as u8, (0x80 + v % 64) as u8]
    } else if v < 0x10000 {
        seq![(0xE0 + v / 4096) as u8, (0x80 + v / 64 % 64) as u8, (0x80 + v % 64) as u8]
    } else {
        seq![
            (0xF0 + v / 262144) as u8,
            (0x80 + v / 4096 % 64) as u8,
            (0x80 + v / 64 % 64) as u8,
            (0x80 + v % 64) as u8,
        ]
    }
}

/// The byte at `i` of the encoding of `c`, or zero past its end.
pub open spec fn utf8_byte(c: char, i: int) -> u8 {
    if i < utf8_encoding(c).len() {
        utf8_encoding(c)[i]
    } else {
        0
    }
}

pub open spec fn character_record(c: char) -> WinitEventReceivedCharacter {
    WinitEventReceivedCharacter {
        length: utf8_encoding(c).len() as usize,
        byte_1: utf8_byte(c, 0),
        byte_2: utf8_byte(c, 1),
        byte_3: utf8_byte(c, 2),
        byte_4: utf8_byte(c, 3),
    }
}

/// The virtual key code reported for a key event, given the codes recorded per scan code.
///
/// A press with a code reports the code first recorded for its scan code, or its own if
/// none is; a release reports the recorded code if there is one, else what it carries.
pub open spec fn reported_key_code(buffer: Map<u32, u32>, input: NativeKeyboardInput) -> Option<u32> {
    match input.state {
        NativeElementState::Pressed => match input.virtual_keycode {
            None => None,
            Some(code) => if buffer.contains_key(input.scan_code) {
                Some(buffer[input.scan_code])
            } else {
                Some(code)
            },
        },
        NativeElementState::Released => if buffer.contains_key(input.scan_code) {
            Some(buffer[input.scan_code])
        } else {
            input.virtual_keycode
        },
    }
}

/// The recorded codes after a key event: a press with a code records it under a free
/// scan code, a release forgets its scan code.
pub open spec fn key_buffer_after(buffer: Map<u32, u32>, input: NativeKeyboardInput) -> Map<u32, u32> {
    match input.state {
        NativeElementState::Pressed => match input.virtual_keycode {
            Some(code) => if buffer.contains_key(input.scan_code) {
                buffer
            } else {
                buffer.insert(input.scan_code, code)
            },
            None => buffer,
        },
        NativeElementState::Released => buffer.remove(input.scan_code),
    }
}

pub open spec fn keyboard_record(
    buffer: Map<u32, u32>,
    device_id: i64,
    input: NativeKeyboardInput,
    is_synthetic: bool,
) -> WinitEventKeyboardInput {
    let code = reported_key_code(buffer, input);
    WinitEventKeyboardInput {
        device_id,
        scan_code: input.scan_code,
        state: element_state(input.state),
        has_virtual_keycode: code is Some,
        virtual_keycode: match code {
            Some(c) => c,
            None => UNLABELED_KEY_CODE,
        },
        is_synthetic,
    }
}

/// The record of a received character of a window.
pub open spec fn character_event(window_id: u128, c: char) -> WinitEvent {
    WinitEvent {
        window_id,
        event_type: WinitEventType::WindowEventReceivedCharacter,
        received_character: character_record(c),
        ..blank_event()
    }
}

/// The record of a window event; `base` already carries the window's identity.
pub open spec fn window_event_record(
    buffer: Map<u32, u32>,
    base: WinitEvent,
    event: NativeWindowEvent,
) -> WinitEvent {
    match event {
        NativeWindowEvent::Resized { width, height } => WinitEvent {
            event_type: WinitEventType::WindowEventResized,
            window_resized: WinitWindowResizedEvent { width, height },
            ..base
        },
        NativeWindowEvent::ScaleFactorChanged { scale_factor, width, height } => WinitEvent {
            event_type: WinitEventType::WindowEventScaleFactorChanged,
            scale_factor: WinitWindowScaleFactorChangedEvent { scale_factor, width, height },
            ..base
        },
        NativeWindowEvent::Focused(is_focused) => WinitEvent {
            event_type: WinitEventType::WindowEventFocused,
            window_focused: WinitWindowFocusedEvent { is_focused },
            ..base
        },
        NativeWindowEvent::Moved { x, y } => WinitEvent {
            event_type: WinitEventType::WindowEventMoved,
            window_moved: WinitWindowMovedEvent { x, y },
            ..base
        },
        NativeWindowEvent::CloseRequested => WinitEvent {
            event_type: WinitEventType::WindowEventCloseRequested,
            ..base
        },
        NativeWindowEvent::Destroyed => WinitEvent {
            event_type: WinitEventType::WindowEventDestroyed,
            ..base
        },
        NativeWindowEvent::Touch { device_id, phase, x, y, id } => WinitEvent {
            event_type: WinitEventType::WindowEventTouch,
            touch: WinitTouchEvent { device_id, phase: touch_phase(phase), x, y, id },
            ..base
        },
        NativeWindowEvent::MouseInput { device_id, state, button } => WinitEvent {
            event_type: WinitEventType::WindowEventMouseInput,
            mouse_input: WinitMouseInputEvent {
                device_id,
                state: element_state(state),
                button: mouse_button(button),
            },
            ..base
        },
        NativeWindowEvent::CursorMoved { device_id, x, y } => WinitEvent {
            event_type: WinitEventType::WindowEventCursorMoved,
            cursor_moved: WinitCursorMovedEvent { device_id, x, y },
            ..base
        },
        NativeWindowEvent::CursorEntered { .. } => WinitEvent {
            event_type: WinitEventType::WindowEventCursorEntered,
            ..base
        },
        NativeWindowEvent::CursorLeft { .. } => WinitEvent {
            event_type: WinitEventType::WindowEventCursorLeft,
            ..base
        },
        NativeWindowEvent::MouseWheel { device_id, delta, phase } => WinitEvent {
            event_type: WinitEventType::WindowEventMouseWheel,
            mouse_wheel: WinitMouseWheelEvent {
                device_id,
                phase: touch_phase(phase),
                delta: scroll_delta(delta),
            },
            ..base
        },
        NativeWindowEvent::KeyboardInput { device_id, input, is_synthetic } => WinitEvent {
            event_type: WinitEventType::WindowEventKeyboardInput,
            keyboard_input: keyboard_record(buffer, device_id, input, is_synthetic),
            ..base
        },
        NativeWindowEvent::ReceivedCharacter(c) => WinitEvent {
            event_type: WinitEventType::WindowEventReceivedCharacter,
            received_character: character_record(c),
            ..base
        },
        NativeWindowEvent::ModifiersChanged(modifiers) => WinitEvent {
            event_type: WinitEventType::ModifiersChanged,
            modifiers,
            ..base
        },
        NativeWindowEvent::ImeCommit(_) => base,
        NativeWindowEvent::Other => base,
    }
}

/// The record that the translator produces for `event`, given the recorded key codes.
pub open spec fn translated(buffer: Map<u32, u32>, event: NativeEvent) -> WinitEvent {
    match event {
        NativeEvent::WindowEvent { window_id, event } => window_event_record(
            buffer,
            WinitEvent { window_id, ..blank_event() },
            event,
        ),
        NativeEvent::NewEvents => WinitEvent { event_type: WinitEventType::NewEvents, ..blank_event() },
        NativeEvent::MainEventsCleared => WinitEvent {
            event_type: WinitEventType::MainEventsCleared,
            ..blank_event()
        },
        NativeEvent::RedrawEventsCleared => WinitEvent {
            event_type: WinitEventType::RedrawEventsCleared,
            ..blank_event()
        },
        NativeEvent::LoopDestroyed => WinitEvent {
            event_type: WinitEventType::LoopDestroyed,
            ..blank_event()
        },
        NativeEvent::RedrawRequested(window_id) => WinitEvent {
            window_id,
            event_type: WinitEventType::RedrawRequested,
            ..blank_event()
        },
        NativeEvent::Suspended => WinitEvent { event_type: WinitEventType::Suspended, ..blank_event() },
        NativeEvent::Resumed => WinitEvent { event_type: WinitEventType::Resumed, ..blank_event() },
        NativeEvent::UserEvent(e) => WinitEvent {
            event_type: WinitEventType::UserEvent,
            user_event: WinitEventUserEvent { event: e },
            ..blank_event()
        },
        NativeEvent::DeviceEvent => blank_event(),
    }
}

/// Whether the translator gives `event` a foreign-visible record: all but raw device
/// events and the window events outside the enumerated set.
pub open spec fn is_consumed(event: NativeEvent) -> bool {
    match event {
        NativeEvent::DeviceEvent => false,
        NativeEvent::WindowEvent { event, .. } => match event {
            NativeWindowEvent::ImeCommit(_) => false,
            NativeWindowEvent::Other => false,
            _ => true,
        },
        _ => true,
    }
}

/// The recorded key codes after the translator has seen `event`.
pub open spec fn key_buffer_after_event(buffer: Map<u32, u32>, event: NativeEvent) -> Map<u32, u32> {
    match event {
        NativeEvent::WindowEvent { event: NativeWindowEvent::KeyboardInput { input, .. }, .. } => {
            key_buffer_after(buffer, input)
        },
        _ => buffer,
    }
}


// ---------------------------------------------------------------------------
// The translator.
// ---------------------------------------------------------------------------

/// Negates a binary64 value given by its bits.
pub fn negate_bits(bits: u64) -> (r: u64)
    ensures
        r == negated(bits),
{
    if bits >= SIGN_BIT {
        bits - SIGN_BIT
    } else {
        bits + SIGN_BIT
    }
}

fn convert_touch_phase(phase: NativeTouchPhase) -> (r: WinitEventTouchPhase)
    ensures
        r == touch_phase(phase),
{
    match phase {
        NativeTouchPhase::Started => WinitEventTouchPhase::Started,
        NativeTouchPhase::Moved => WinitEventTouchPhase::Moved,
        NativeTouchPhase::Ended => WinitEventTouchPhase::Ended,
        NativeTouchPhase::Cancelled => WinitEventTouchPhase::Cancelled,
    }
}

fn convert_element_state(state: NativeElementState) -> (r: WinitEventInputElementState)
    ensures
        r == element_state(state),
{
    match state {
        NativeElementState::Pressed => WinitEventInputElementState::Pressed,
        NativeElementState::Released => WinitEventInputElementState::Released,
    }
}

/// Encodes `character` as UTF-8 into a fixed four-byte record with an explicit length.
pub fn encode_character(character: char) -> (r: WinitEventReceivedCharacter)
    ensures
        r == character_record(character),
        1 <= r.length <= 4,
{
    let v = character as u32;
    if v < 0x80 {
        WinitEventReceivedCharacter { length: 1, byte_1: v as u8, byte_2: 0, byte_3: 0, byte_4: 0 }
    } else if v < 0x800 {
        WinitEventReceivedCharacter {
            length: 2,
            byte_1: (0xC0 + v / 64) as u8,
            byte_2: (0x80 + v % 64) as u8,
            byte_3: 0,
            byte_4: 0,
        }
    } else if v < 0x10000 {
        WinitEventReceivedCharacter {
            length: 3,
            byte_1: (0xE0 + v / 4096) as u8,
            byte_2: (0x80 + v / 64 % 64) as u8,
            byte_3: (0x80 + v % 64) as u8,
            byte_4: 0,
        }
    } else {
        WinitEventReceivedCharacter {
            length: 4,
            byte_1: (0xF0 + v / 262144) as u8,
            byte_2: (0x80 + v / 4096 % 64) as u8,
            byte_3: (0x80 + v / 64 % 64) as u8,
            byte_4: (0x80 + v % 64) as u8,
        }
    }
}

/// Fills in a mouse wheel event: horizontal component negated, vertical one kept.
pub fn winit_event_loop_process_mouse_wheel(
    c_event: &mut WinitEvent,
    device_id: i64,
    delta: NativeScrollDelta,
    phase: NativeTouchPhase,
)
    ensures
        *final(c_event) == (WinitEvent {
            event_type: WinitEventType::WindowEventMouseWheel,
            mouse_wheel: WinitMouseWheelEvent {
                device_id,
                phase: touch_phase(phase),
                delta: scroll_delta(delta),
            },
            ..*old(c_event)
        }),
{
    c_event.event_type = WinitEventType::WindowEventMouseWheel;
    c_event.mouse_wheel.device_id = device_id;
    match delta {
        NativeScrollDelta::LineDelta { x, y } => {
            c_event.mouse_wheel.delta.delta_type = WinitEventMouseScrollDeltaType::LineDelta;
            c_event.mouse_wheel.delta.x = negate_bits(x);
            c_event.mouse_wheel.delta.y = y;
        },
        NativeScrollDelta::PixelDelta { x, y } => {
            c_event.mouse_wheel.delta.delta_type = WinitEventMouseScrollDeltaType::PixelDelta;
            c_event.mouse_wheel.delta.x = negate_bits(x);
            c_event.mouse_wheel.delta.y = y;
        },
    }
    c_event.mouse_wheel.phase = convert_touch_phase(phase);
}

/// Fills in a touch event.
pub fn winit_event_loop_process_touch(
    c_event: &mut WinitEvent,
    device_id: i64,
    phase: NativeTouchPhase,
    x: u64,
    y: u64,
    id: u64,
)
    ensures
        *final(c_event) == (WinitEvent {
            event_type: WinitEventType::WindowEventTouch,
            touch: WinitTouchEvent { device_id, phase: touch_phase(phase), x, y, id },
            ..*old(c_event)
        }),
{
    c_event.event_type = WinitEventType::WindowEventTouch;
    c_event.touch.device_id = device_id;
    c_event.touch.x = x;
    c_event.touch.y = y;
    c_event.touch.id = id;
    c_event.touch.phase = convert_touch_phase(phase);
}

/// Fills in a mouse button event.
pub fn winit_event_loop_process_mouse_input(
    c_event: &mut WinitEvent,
    device_id: i64,
    state: NativeElementState,
    button: NativeMouseButton,
)
    ensures
        *final(c_event) == (WinitEvent {
            event_type: WinitEventType::WindowEventMouseInput,
            mouse_input: WinitMouseInputEvent {
                device_id,
                state: element_state(state),
                button: mouse_button(button),
            },
            ..*old(c_event)
        }),
{
    c_event.event_type = WinitEventType::WindowEventMouseInput;
    c_event.mouse_input.device_id = device_id;
    c_event.mouse_input.state = convert_element_state(state);
    match button {
        NativeMouseButton::Left => {
            c_event.mouse_input.button.button_type = WinitEventMouseButtonType::Left;
            c_event.mouse_input.button.button_code = 0;
        },
        NativeMouseButton::Right => {
            c_event.mouse_input.button.button_type = WinitEventMouseButtonType::Right;
            c_event.mouse_input.button.button_code = 1;
        },
        NativeMouseButton::Middle => {
            c_event.mouse_input.button.button_type = WinitEventMouseButtonType::Middle;
            c_event.mouse_input.button.button_code = 2;
        },
        NativeMouseButton::Other(code) => {
            c_event.mouse_input.button.button_type = WinitEventMouseButtonType::Other;
            c_event.mouse_input.button.button_code = code;
        },
    }
}

/// Fills in a cursor motion event.
pub fn winit_event_loop_process_cursor_moved(c_event: &mut WinitEvent, device_id: i64, x: u64, y: u64)
    ensures
        *final(c_event) == (WinitEvent {
            event_type: WinitEventType::WindowEventCursorMoved,
            cursor_moved: WinitCursorMovedEvent { device_id, x, y },
            ..*old(c_event)
        }),
{
    c_event.event_type = WinitEventType::WindowEventCursorMoved;
    c_event.cursor_moved.device_id = device_id;
    c_event.cursor_moved.x = x;
    c_event.cursor_moved.y = y;
}

/// Marks the event as the cursor entering the window.
pub fn winit_event_loop_process_cursor_entered(c_event: &mut WinitEvent)
    ensures
        *final(c_event) == (WinitEvent {
            event_type: WinitEventType::WindowEventCursorEntered,
            ..*old(c_event)
        }),
{
    c_event.event_type = WinitEventType::WindowEventCursorEntered;
}

/// Marks the event as the cursor leaving the window.
pub fn winit_event_loop_process_cursor_left(c_event: &mut WinitEvent)
    ensures
        *final(c_event) == (WinitEvent {
            event_type: WinitEventType::WindowEventCursorLeft,
            ..*old(c_event)
        }),
{
    c_event.event_type = WinitEventType::WindowEventCursorLeft;
}

/// Fills in a received character as its UTF-8 encoding.
pub fn winit_event_loop_process_received_character(c_event: &mut WinitEvent, character: char)
    ensures
        *final(c_event) == (WinitEvent {
            event_type: WinitEventType::WindowEventReceivedCharacter,
            received_character: character_record(character),
            ..*old(c_event)
        }),
{
    c_event.event_type = WinitEventType::WindowEventReceivedCharacter;
    c_event.received_character = encode_character(character);
}

/// Translates native events into flat records, remembering the virtual key code of each
/// pressed scan code until its release.
pub struct EventProcessor {
    pub key_buffer: HashMap<u32, u32>,
}

impl View for EventProcessor {
    type V = Map<u32, u32>;

    open spec fn view(&self) -> Map<u32, u32> {
        self.key_buffer@
    }
}

impl EventProcessor {
    pub fn new() -> (r: Self)
        ensures
            r@ == Map::<u32, u32>::empty(),
    {
        EventProcessor { key_buffer: HashMap::new() }
    }

    /// Translates `global_event` into `c_event`; the result says whether the event has a
    /// foreign-visible record.
    pub fn process(&mut self, global_event: NativeEvent, c_event: &mut WinitEvent) -> (r: bool)
        ensures
            r == is_consumed(global_event),
            *final(c_event) == translated(old(self)@, global_event),
            final(self)@ == key_buffer_after_event(old(self)@, global_event),
    {
        *c_event = WinitEvent::default();
        let mut result = true;
        match global_event {
            NativeEvent::WindowEvent { event, window_id } => {
                c_event.window_id = window_id;
                match event {
                    NativeWindowEvent::Resized { width, height } => {
                        c_event.event_type = WinitEventType::WindowEventResized;
                        c_event.window_resized.width = width;
                        c_event.window_resized.height = height;
                    },
                    NativeWindowEvent::ScaleFactorChanged { scale_factor, width, height } => {
                        c_event.event_type = WinitEventType::WindowEventScaleFactorChanged;
                        c_event.scale_factor.scale_factor = scale_factor;
                        c_event.scale_factor.width = width;
                        c_event.scale_factor.height = height;
                    },
                    NativeWindowEvent::Focused(is_focused) => {
                        c_event.event_type = WinitEventType::WindowEventFocused;
                        c_event.window_focused.is_focused = is_focused;
                    },
                    NativeWindowEvent::Moved { x, y } => {
                        c_event.event_type = WinitEventType::WindowEventMoved;
                        c_event.window_moved.x = x;
                        c_event.window_moved.y = y;
                    },
                    NativeWindowEvent::CloseRequested => {
                        c_event.event_type = WinitEventType::WindowEventCloseRequested;
                    },
                    NativeWindowEvent::Destroyed => {
                        c_event.event_type = WinitEventType::WindowEventDestroyed;
                    },
                    NativeWindowEvent::Touch { device_id, phase, x, y, id } => {
                        winit_event_loop_process_touch(c_event, device_id, phase, x, y, id);
                    },
                    NativeWindowEvent::MouseInput { device_id, state, button } => {
                        winit_event_loop_process_mouse_input(c_event, device_id, state, button);
                    },
                    NativeWindowEvent::CursorMoved { device_id, x, y } => {
                        winit_event_loop_process_cursor_moved(c_event, device_id, x, y);
                    },
                    NativeWindowEvent::CursorEntered { .. } => {
                        winit_event_loop_process_cursor_entered(c_event);
                    },
                    NativeWindowEvent::CursorLeft { .. } => {
                        winit_event_loop_process_cursor_left(c_event);
                    },
                    NativeWindowEvent::MouseWheel { device_id, delta, phase } => {
                        winit_event_loop_process_mouse_wheel(c_event, device_id, delta, phase);
                    },
                    NativeWindowEvent::KeyboardInput { device_id, input, is_synthetic } => {
                        self.process_keyboard_input(c_event, device_id, input, is_synthetic);
                    },
                    NativeWindowEvent::ReceivedCharacter(character) => {
                        winit_event_loop_process_received_character(c_event, character);
                    },
                    NativeWindowEvent::ModifiersChanged(modifiers) => {
                        c_event.event_type = WinitEventType::ModifiersChanged;
                        c_event.modifiers = modifiers;
                    },
                    NativeWindowEvent::ImeCommit(_) => {
                        result = false;
                    },
                    NativeWindowEvent::Other => {
                        result = false;
                    },
                }
            },
            NativeEvent::NewEvents => {
                c_event.event_type = WinitEventType::NewEvents;
            },
            NativeEvent::MainEventsCleared => {
                c_event.event_type = WinitEventType::MainEventsCleared;
            },
            NativeEvent::RedrawEventsCleared => {
                c_event.event_type = WinitEventType::RedrawEventsCleared;
            },
            NativeEvent::LoopDestroyed => {
                c_event.event_type = WinitEventType::LoopDestroyed;
            },
            NativeEvent::RedrawRequested(window_id) => {
                c_event.event_type = WinitEventType::RedrawRequested;
                c_event.window_id = window_id;
            },
            NativeEvent::Suspended => {
                c_event.event_type = WinitEventType::Suspended;
            },
            NativeEvent::Resumed => {
                c_event.event_type = WinitEventType::Resumed;
            },
            NativeEvent::UserEvent(custom_event) => {
                c_event.event_type = WinitEventType::UserEvent;
                c_event.user_event.event = custom_event;
            },
            NativeEvent::DeviceEvent => {
                result = false;
            },
        }
        result
    }

    /// Fills in a keyboard event and keeps the recorded key codes up to date.
    fn process_keyboard_input(
        &mut self,
        c_event: &mut WinitEvent,
        device_id: i64,
        input: NativeKeyboardInput,
        is_synthetic: bool,
    )
        ensures
            *final(c_event) == (WinitEvent {
                event_type: WinitEventType::WindowEventKeyboardInput,
                keyboard_input: keyboard_record(old(self)@, device_id, input, is_synthetic),
                ..*old(c_event)
            }),
            final(self)@ == key_buffer_after(old(self)@, input),
    {
        c_event.event_type = WinitEventType::WindowEventKeyboardInput;
        c_event.keyboard_input.device_id = device_id;
        c_event.keyboard_input.is_synthetic = is_synthetic;
        c_event.keyboard_input.scan_code = input.scan_code;
        c_event.keyboard_input.state = convert_element_state(input.state);

        let key_code: Option<u32> = match input.state {
            NativeElementState::Pressed => match input.virtual_keycode {
                None => None,
                Some(code) => match self.key_buffer.get(&input.scan_code) {
                    None => {
                        self.key_buffer.insert(input.scan_code, code);
                        Some(code)
                    },
                    Some(recorded) => Some(*recorded),
                },
            },
            NativeElementState::Released => match self.key_buffer.remove(&input.scan_code) {
                None => input.virtual_keycode,
                Some(recorded) => Some(recorded),
            },
        };
        proof {
            assert(self.key_buffer@ =~= key_buffer_after(old(self)@, input));
        }

        match key_code {
            Some(code) => {
                c_event.keyboard_input.has_virtual_keycode = true;
                c_event.keyboard_input.virtual_keycode = code;
            },
            None => {
                c_event.keyboard_input.has_virtual_keycode = false;
                c_event.keyboard_input.virtual_keycode = UNLABELED_KEY_CODE;
            },
        }
    }
}

/// A key pressed with a virtual key code and then released without one reports that
/// code on release, provided no code was recorded for its scan code before the press;
/// the release then leaves the recorded codes as they were before the press.
pub proof fn lemma_key_release_recovers_code(
    buffer: Map<u32, u32>,
    window_id: u128,
    device_id: i64,
    scan_code: u32,
    code: u32,
)
    requires
        !buffer.contains_key(scan_code),
    ensures
        ({
            let press = NativeEvent::WindowEvent {
                window_id,
                event: NativeWindowEvent::KeyboardInput {
                    device_id,
                    input: NativeKeyboardInput {
                        scan_code,
                        state: NativeElementState::Pressed,
                        virtual_keycode: Some(code),
                    },
                    is_synthetic: false,
                },
            };
            let release = NativeEvent::WindowEvent {
                window_id,
                event: NativeWindowEvent::KeyboardInput {
                    device_id,
                    input: NativeKeyboardInput {
                        scan_code,
                        state: NativeElementState::Released,
                        virtual_keycode: None,
                    },
                    is_synthetic: false,
                },
            };
            let after_press = key_buffer_after_event(buffer, press);
            let record = translated(after_press, release);
            &&& is_consumed(release)
            &&& record.event_type == WinitEventType::WindowEventKeyboardInput
            &&& record.keyboard_input.state == WinitEventInputElementState::Released
            &&& record.keyboard_input.has_virtual_keycode
            &&& record.keyboard_input.virtual_keycode == code
            &&& key_buffer_after_event(after_press, release) == buffer
        }),
{
    assert(buffer.insert(scan_code, code).remove(scan_code) =~= buffer);
}

} // verus!
