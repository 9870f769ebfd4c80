use vstd::prelude::*;

use crate::input::Axis;
use crate::input::DeviceId;
use crate::input::GamepadButton;
use crate::input::Key;
use crate::input::MouseButton;
use crate::input::Sample;
use crate::input::Vec2;
use crate::input::spec_key_from_code;
use crate::input::spec_mouse_button_from_code;
use crate::input::key_from_code;
use crate::input::mouse_button_from_code;

verus! {

/// Whether a scroll delta arrived in discrete lines (a mouse wheel) or
/// already in logical pixels (a trackpad).
#[derive(Clone, Copy, PartialEq, Eq, Structural, Debug)]
pub enum ScrollKind {
    Lines,
    Pixels,
}

/// A raw event from the windowing host, before normalization. Key and
/// button codes are the host's own numbering; the normalizer recognizes
/// some of them and drops the rest.
///
/// For a `Scroll` of kind `Lines`, `scaled` must carry the raw delta
/// already multiplied by the configured `scroll_pixel_factor`: that
/// multiplication is fractional arithmetic and stays with the host. The
/// normalizer decides which of the two deltas is emitted.
#[derive(Clone, Copy, PartialEq, Eq, Structural, Debug)]
pub enum RawHostEvent {
    Resized { width: u32, height: u32 },
    CloseRequested,
    CharTyped { ch: char },
    KeyInput { code: u32, pressed: bool },
    CursorMoved { pos: Vec2 },
    MouseInput { code: u32, pressed: bool },
    Scroll { kind: ScrollKind, delta: Vec2, scaled: Vec2 },
}

/// A raw report from the gamepad backend's polling thread, before
/// normalization. `handle` is the backend's own gamepad handle, which
/// the backend may recycle across reconnects.
#[derive(Clone, Copy, PartialEq, Eq, Structural, Debug)]
pub enum RawPadEvent {
    Connected { handle: u64 },
    Disconnected { handle: u64 },
    Button { handle: u64, code: u32, pressed: bool },
    Axis { handle: u64, code: u32, value: Sample },
}

/// The normalized event vocabulary the dispatch loop feeds to the game.
/// Every variant speaks the closed enumerations of this crate; raw input
/// that does not map into them is dropped before an `Event` is made.
#[derive(Clone, Copy, PartialEq, Eq, Structural, Debug)]
pub enum Event {
    Resized { width: u32, height: u32 },
    CloseRequested,
    CharTyped { ch: char },
    KeyPressed { key: Key },
    KeyReleased { key: Key },
    MouseMoved { pos: Vec2 },
    MouseButtonPressed { pos: Vec2, button: MouseButton },
    MouseButtonReleased { pos: Vec2, button: MouseButton },
    Scroll { pos: Vec2, delta: Vec2 },
    PadConnected { dev: DeviceId },
    PadDisconnected { dev: DeviceId },
    PadButtonPressed { dev: DeviceId, button: GamepadButton },
    PadButtonReleased { dev: DeviceId, button: GamepadButton },
    PadAxisChanged { dev: DeviceId, axis: Axis, value: Sample },
}

impl Event {
    /// Whether this event reaches the game through a gamepad callback.
    pub open spec fn is_pad_event(self) -> bool {
        match self {
            Event::PadConnected { .. } => true,
            Event::PadDisconnected { .. } => true,
            Event::PadButtonPressed { .. } => true,
            Event::PadButtonReleased { .. } => true,
            Event::PadAxisChanged { .. } => true,
            _ => false,
        }
    }
}

/// What the normalizer makes of one raw host event: the normalized event,
/// or nothing when the raw input is not recognized. `cursor` is the most
/// recently reported cursor position; button and scroll events bind it
/// as their position.
///
/// A key or mouse-button code outside the recognized tables yields no
/// event at all. A line-based scroll emits the host-scaled delta, so
/// every emitted scroll delta is in pixel-equivalent units; a pixel-based
/// scroll passes through unchanged.
pub open spec fn spec_normalize_host(raw: RawHostEvent, cursor: Vec2) -> Option<Event> {
    match raw {
        RawHostEvent::Resized { width, height } => Some(Event::Resized { width, height }),
        RawHostEvent::CloseRequested => Some(Event::CloseRequested),
        RawHostEvent::CharTyped { ch } => Some(Event::CharTyped { ch }),
        RawHostEvent::KeyInput { code, pressed } => match spec_key_from_code(code) {
            Some(key) => if pressed {
                Some(Event::KeyPressed { key })
            } else {
                Some(Event::KeyReleased { key })
            },
            None => None,
        },
        RawHostEvent::CursorMoved { pos } => Some(Event::MouseMoved { pos }),
        RawHostEvent::MouseInput { code, pressed } => match spec_mouse_button_from_code(code) {
            Some(button) => if pressed {
                Some(Event::MouseButtonPressed { pos: cursor, button })
            } else {
                Some(Event::MouseButtonReleased { pos: cursor, button })
            },
            None => None,
        },
        RawHostEvent::Scroll { kind, delta, scaled } => Some(
            Event::Scroll {
                pos: cursor,
                delta: if kind == ScrollKind::Lines {
                    scaled
                } else {
                    delta
                },
            },
        ),
    }
}

/// Normalizes one raw host event, exactly as [`spec_normalize_host`]
/// describes.
pub fn normalize_host(raw: RawHostEvent, cursor: Vec2) -> (r: Option<Event>)
    ensures
        r == spec_normalize_host(raw, cursor),
{
    match raw {
        RawHostEvent::Resized { width, height } => Some(Event::Resized { width, height }),
        RawHostEvent::CloseRequested => Some(Event::CloseRequested),
        RawHostEvent::CharTyped { ch } => Some(Event::CharTyped { ch }),
        RawHostEvent::KeyInput { code, pressed } => match key_from_code(code) {
            Some(key) => if pressed {
                Some(Event::KeyPressed { key })
            } else {
                Some(Event::KeyReleased { key })
            },
            None => None,
        },
        RawHostEvent::CursorMoved { pos } => Some(Event::MouseMoved { pos }),
        RawHostEvent::MouseInput { code, pressed } => match mouse_button_from_code(code) {
            Some(button) => if pressed {
                Some(Event::MouseButtonPressed { pos: cursor, button })
            } else {
                Some(Event::MouseButtonReleased { pos: cursor, button })
            },
            None => None,
        },
        RawHostEvent::Scroll { kind, delta, scaled } => Some(
            Event::Scroll {
                pos: cursor,
                delta: if kind == ScrollKind::Lines {
                    scaled
                } else {
                    delta
                },
            },
        ),
    }
}

/// The normalizer never makes a `Key` event out of a physical key whose
/// code is outside the recognized table: an unmapped code yields no
/// event at all, and every emitted key comes from the table entry for
/// its code.
pub proof fn lemma_unmapped_key_yields_no_event(code: u32, pressed: bool, cursor: Vec2)
    ensures
        spec_key_from_code(code) is None ==> spec_normalize_host(
            RawHostEvent::KeyInput { code, pressed },
            cursor,
        ) is None,
        forall|key: Key|
            spec_normalize_host(RawHostEvent::KeyInput { code, pressed }, cursor) == Some(
                Event::KeyPressed { key },
            ) ==> spec_key_from_code(code) == Some(key),
        forall|key: Key|
            spec_normalize_host(RawHostEvent::KeyInput { code, pressed }, cursor) == Some(
                Event::KeyReleased { key },
            ) ==> spec_key_from_code(code) == Some(key),
{
}

/// A scroll input that arrives line-based emits the host-scaled delta;
/// one that arrives pixel-based emits its own delta unchanged.
pub proof fn lemma_scroll_unit_conversion(delta: Vec2, scaled: Vec2, cursor: Vec2)
    ensures
        spec_normalize_host(
            RawHostEvent::Scroll { kind: ScrollKind::Lines, delta, scaled },
            cursor,
        ) == Some(Event::Scroll { pos: cursor, delta: scaled }),
        spec_normalize_host(
            RawHostEvent::Scroll { kind: ScrollKind::Pixels, delta, scaled },
            cursor,
        ) == Some(Event::Scroll { pos: cursor, delta }),
{
}

} // verus!
