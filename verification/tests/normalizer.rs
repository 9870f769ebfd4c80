use yagl::Event;
use yagl::Key;
use yagl::MouseButton;
use yagl::RawHostEvent;
use yagl::Sample;
use yagl::ScrollKind;
use yagl::Vec2;
use yagl::axis_from_code;
use yagl::gamepad_button_from_code;
use yagl::key_from_code;
use yagl::mouse_button_from_code;
use yagl::normalize_host;
use yagl::Axis;
use yagl::GamepadButton;

fn sample(v: f32) -> Sample {
    Sample { bits: v.to_bits() }
}

fn vec2(x: f32, y: f32) -> Vec2 {
    Vec2 { x: sample(x), y: sample(y) }
}

#[test]
fn key_table_edges() {
    assert_eq!(key_from_code(0), Some(Key::A));
    assert_eq!(key_from_code(25), Some(Key::Z));
    assert_eq!(key_from_code(26), Some(Key::Num0));
    assert_eq!(key_from_code(35), Some(Key::Num9));
    assert_eq!(key_from_code(36), Some(Key::Escape));
    assert_eq!(key_from_code(37), Some(Key::Space));
    assert_eq!(key_from_code(56), Some(Key::RightAlt));
    assert_eq!(key_from_code(57), Some(Key::F1));
    assert_eq!(key_from_code(68), Some(Key::F12));
    assert_eq!(key_from_code(69), None);
    assert_eq!(key_from_code(u32::MAX), None);
}

#[test]
fn mouse_button_table() {
    assert_eq!(mouse_button_from_code(0), Some(MouseButton::Left));
    assert_eq!(mouse_button_from_code(1), Some(MouseButton::Right));
    assert_eq!(mouse_button_from_code(2), Some(MouseButton::Middle));
    assert_eq!(mouse_button_from_code(3), None);
}

#[test]
fn gamepad_button_table() {
    assert_eq!(gamepad_button_from_code(0), Some(GamepadButton::South));
    assert_eq!(gamepad_button_from_code(18), Some(GamepadButton::DPadRight));
    assert_eq!(gamepad_button_from_code(19), None);
}

#[test]
fn axis_table() {
    assert_eq!(axis_from_code(0), Some(Axis::LeftStickX));
    assert_eq!(axis_from_code(7), Some(Axis::DPadY));
    assert_eq!(axis_from_code(8), None);
}

#[test]
fn recognized_key_becomes_key_event() {
    let at = vec2(0.0, 0.0);
    let down = normalize_host(RawHostEvent::KeyInput { code: 36, pressed: true }, at);
    assert_eq!(down, Some(Event::KeyPressed { key: Key::Escape }));
    let up = normalize_host(RawHostEvent::KeyInput { code: 36, pressed: false }, at);
    assert_eq!(up, Some(Event::KeyReleased { key: Key::Escape }));
}

#[test]
fn unmapped_key_yields_no_event() {
    let at = vec2(0.0, 0.0);
    assert_eq!(normalize_host(RawHostEvent::KeyInput { code: 69, pressed: true }, at), None);
    assert_eq!(normalize_host(RawHostEvent::KeyInput { code: 1000, pressed: false }, at), None);
}

#[test]
fn unmapped_mouse_button_yields_no_event() {
    let at = vec2(0.0, 0.0);
    assert_eq!(normalize_host(RawHostEvent::MouseInput { code: 9, pressed: true }, at), None);
}

#[test]
fn mouse_button_binds_the_tracked_cursor() {
    let at = vec2(12.0, 34.0);
    assert_eq!(
        normalize_host(RawHostEvent::MouseInput { code: 0, pressed: true }, at),
        Some(Event::MouseButtonPressed { pos: at, button: MouseButton::Left })
    );
    assert_eq!(
        normalize_host(RawHostEvent::MouseInput { code: 2, pressed: false }, at),
        Some(Event::MouseButtonReleased { pos: at, button: MouseButton::Middle })
    );
}

#[test]
fn window_events_pass_through() {
    let at = vec2(0.0, 0.0);
    assert_eq!(
        normalize_host(RawHostEvent::Resized { width: 640, height: 480 }, at),
        Some(Event::Resized { width: 640, height: 480 })
    );
    assert_eq!(normalize_host(RawHostEvent::CloseRequested, at), Some(Event::CloseRequested));
    assert_eq!(
        normalize_host(RawHostEvent::CharTyped { ch: 'q' }, at),
        Some(Event::CharTyped { ch: 'q' })
    );
    let pos = vec2(4.0, 8.5);
    assert_eq!(
        normalize_host(RawHostEvent::CursorMoved { pos }, at),
        Some(Event::MouseMoved { pos })
    );
}

#[test]
fn line_scroll_emits_scaled_delta() {
    // A factor of 2.0 turns a line delta of [1.0, -1.0] into [2.0, -2.0]:
    // the host multiplies, the normalizer emits the scaled value.
    let at = vec2(7.0, 9.0);
    let factor = 2.0f32;
    let raw = [1.0f32, -1.0f32];
    let scaled = vec2(raw[0] * factor, raw[1] * factor);
    let got = normalize_host(
        RawHostEvent::Scroll { kind: ScrollKind::Lines, delta: vec2(raw[0], raw[1]), scaled },
        at,
    );
    assert_eq!(got, Some(Event::Scroll { pos: at, delta: vec2(2.0, -2.0) }));
}

#[test]
fn pixel_scroll_passes_through_unscaled() {
    let at = vec2(7.0, 9.0);
    let delta = vec2(3.0, 5.0);
    let got = normalize_host(
        RawHostEvent::Scroll { kind: ScrollKind::Pixels, delta, scaled: vec2(6.0, 10.0) },
        at,
    );
    assert_eq!(got, Some(Event::Scroll { pos: at, delta }));
}
