use yagl::AppContext;
use yagl::Axis;
use yagl::DeviceId;
use yagl::Dispatcher;
use yagl::Error;
use yagl::Game;
use yagl::GamepadButton;
use yagl::Key;
use yagl::LoopState;
use yagl::MouseButton;
use yagl::Options;
use yagl::RawHostEvent;
use yagl::RawPadEvent;
use yagl::RenderContext;
use yagl::Sample;
use yagl::UNIT_SCALE_BITS;
use yagl::Vec2;

fn sample(v: f32) -> Sample {
    Sample { bits: v.to_bits() }
}

fn vec2(x: f32, y: f32) -> Vec2 {
    Vec2 { x: sample(x), y: sample(y) }
}

/// A game that keeps every default callback, so Escape maps to exit.
struct DefaultKeysGame {
    updates: u32,
}

impl Game for DefaultKeysGame {
    fn update(&mut self, _actx: &mut AppContext) -> Result<(), Error> {
        self.updates += 1;
        Ok(())
    }

    fn render(&mut self, _actx: &mut AppContext, _rctx: &mut RenderContext) -> Result<(), Error> {
        Ok(())
    }
}

/// A game that records every callback it receives, overriding all the
/// defaults (including the Escape-to-exit default of `key_pressed`).
struct RecGame {
    calls: Vec<String>,
    fail_update: bool,
    fail_key: bool,
    exit_in_update: bool,
    second_draw: Option<u64>,
}

impl RecGame {
    fn new() -> RecGame {
        RecGame {
            calls: Vec::new(),
            fail_update: false,
            fail_key: false,
            exit_in_update: false,
            second_draw: None,
        }
    }
}

impl Game for RecGame {
    fn update(&mut self, actx: &mut AppContext) -> Result<(), Error> {
        self.calls.push("update".to_string());
        if self.exit_in_update {
            actx.exit();
        }
        if self.fail_update {
            return Err(Error::new("update failed".to_string()));
        }
        Ok(())
    }

    fn render(&mut self, _actx: &mut AppContext, rctx: &mut RenderContext) -> Result<(), Error> {
        self.calls.push("render".to_string());
        rctx.render(7);
        if let Some(d) = self.second_draw {
            rctx.render(d);
        }
        Ok(())
    }

    fn resize(&mut self, _actx: &mut AppContext, width: u32, height: u32) -> Result<(), Error> {
        self.calls.push(format!("resize:{}x{}", width, height));
        Ok(())
    }

    fn char(&mut self, _actx: &mut AppContext, ch: char) -> Result<(), Error> {
        self.calls.push(format!("char:{}", ch));
        Ok(())
    }

    fn key_pressed(&mut self, _actx: &mut AppContext, key: Key) -> Result<(), Error> {
        self.calls.push(format!("key_pressed:{:?}", key));
        if self.fail_key {
            return Err(Error::new("key failed".to_string()));
        }
        Ok(())
    }

    fn key_released(&mut self, _actx: &mut AppContext, key: Key) -> Result<(), Error> {
        self.calls.push(format!("key_released:{:?}", key));
        Ok(())
    }

    fn mouse_moved(&mut self, _actx: &mut AppContext, pos: Vec2) -> Result<(), Error> {
        self.calls.push(format!("mouse_moved:{}:{}", pos.x.bits, pos.y.bits));
        Ok(())
    }

    fn mouse_button_pressed(
        &mut self,
        _actx: &mut AppContext,
        pos: Vec2,
        button: MouseButton,
    ) -> Result<(), Error> {
        self.calls.push(format!("mouse_pressed:{:?}:{}:{}", button, pos.x.bits, pos.y.bits));
        Ok(())
    }

    fn mouse_button_released(
        &mut self,
        _actx: &mut AppContext,
        pos: Vec2,
        button: MouseButton,
    ) -> Result<(), Error> {
        self.calls.push(format!("mouse_released:{:?}", button));
        Ok(())
    }

    fn scroll(&mut self, _actx: &mut AppContext, _pos: Vec2, delta: Vec2) -> Result<(), Error> {
        self.calls.push(format!("scroll:{}:{}", delta.x.bits, delta.y.bits));
        Ok(())
    }

    fn gamepad_connected(&mut self, _actx: &mut AppContext, dev: DeviceId) -> Result<(), Error> {
        self.calls.push(format!("pad_connected:{}", dev.raw));
        Ok(())
    }

    fn gamepad_disconnected(
        &mut self,
        _actx: &mut AppContext,
        dev: DeviceId,
    ) -> Result<(), Error> {
        self.calls.push(format!("pad_disconnected:{}", dev.raw));
        Ok(())
    }

    fn gamepad_button_pressed(
        &mut self,
        _actx: &mut AppContext,
        dev: DeviceId,
        button: GamepadButton,
    ) -> Result<(), Error> {
        self.calls.push(format!("pad_pressed:{}:{:?}", dev.raw, button));
        Ok(())
    }

    fn gamepad_button_released(
        &mut self,
        _actx: &mut AppContext,
        dev: DeviceId,
        button: GamepadButton,
    ) -> Result<(), Error> {
        self.calls.push(format!("pad_released:{}:{:?}", dev.raw, button));
        Ok(())
    }

    fn gamepad_axis_changed(
        &mut self,
        _actx: &mut AppContext,
        dev: DeviceId,
        axis: Axis,
        value: Sample,
    ) -> Result<(), Error> {
        self.calls.push(format!("pad_axis:{}:{:?}:{}", dev.raw, axis, value.bits));
        Ok(())
    }
}

#[test]
fn options_default_values() {
    let opts = Options::default();
    assert!(opts.enable_gamepad);
    assert_eq!(opts.scroll_pixel_factor.bits, UNIT_SCALE_BITS);
    assert_eq!(opts.scroll_pixel_factor.bits, 1.0f32.to_bits());
}

#[test]
fn options_callback_default_is_the_default_snapshot() {
    let game = RecGame::new();
    assert_eq!(game.options(), Options::default());
}

#[test]
fn error_carries_its_message() {
    let e = Error::new("backend lost".to_string());
    assert_eq!(e.message().as_str(), "backend lost");
}

#[test]
fn new_dispatcher_is_running() {
    let d = Dispatcher::new(Options::default());
    assert_eq!(d.state(), LoopState::Running);
    assert!(!d.context().exit_requested());
    assert!(d.should_start_poller());
}

#[test]
fn frame_calls_update_then_render_once() {
    let mut d = Dispatcher::new(Options::default());
    let mut g = RecGame::new();
    let r = d.frame(&mut g);
    assert_eq!(r.unwrap(), Some(7));
    assert_eq!(g.calls, vec!["update".to_string(), "render".to_string()]);
    let _ = d.frame(&mut g);
    assert_eq!(
        g.calls,
        vec![
            "update".to_string(),
            "render".to_string(),
            "update".to_string(),
            "render".to_string()
        ]
    );
}

#[test]
fn events_drain_before_the_frame_in_arrival_order() {
    let mut d = Dispatcher::new(Options::default());
    let mut g = RecGame::new();
    d.enqueue_host(RawHostEvent::Resized { width: 320, height: 200 });
    d.enqueue_host(RawHostEvent::CharTyped { ch: 'x' });
    d.enqueue_host(RawHostEvent::KeyInput { code: 0, pressed: true });
    assert!(d.pump(&mut g).is_ok());
    assert!(d.frame(&mut g).is_ok());
    assert_eq!(
        g.calls,
        vec![
            "resize:320x200".to_string(),
            "char:x".to_string(),
            "key_pressed:A".to_string(),
            "update".to_string(),
            "render".to_string()
        ]
    );
}

#[test]
fn loop_keeps_running_without_exit_or_failure() {
    let mut d = Dispatcher::new(Options::default());
    let mut g = RecGame::new();
    for i in 0..50u32 {
        d.enqueue_host(RawHostEvent::KeyInput { code: i % 26, pressed: true });
        assert!(d.pump(&mut g).is_ok());
        assert!(d.frame(&mut g).is_ok());
        assert_eq!(d.state(), LoopState::Running);
    }
    assert_eq!(g.calls.len(), 50 * 3);
}

#[test]
fn default_escape_exits_at_the_drain_boundary() {
    let mut d = Dispatcher::new(Options::default());
    let mut g = DefaultKeysGame { updates: 0 };
    d.enqueue_host(RawHostEvent::KeyInput { code: 36, pressed: true });
    assert!(d.pump(&mut g).is_ok());
    assert_eq!(d.state(), LoopState::Exiting);
    assert!(d.context().exit_requested());
}

#[test]
fn default_non_escape_does_not_exit() {
    let mut d = Dispatcher::new(Options::default());
    let mut g = DefaultKeysGame { updates: 0 };
    d.enqueue_host(RawHostEvent::KeyInput { code: 0, pressed: true });
    assert!(d.pump(&mut g).is_ok());
    assert_eq!(d.state(), LoopState::Running);
}

#[test]
fn overridden_key_pressed_does_not_exit_on_escape() {
    let mut d = Dispatcher::new(Options::default());
    let mut g = RecGame::new();
    d.enqueue_host(RawHostEvent::KeyInput { code: 36, pressed: true });
    assert!(d.pump(&mut g).is_ok());
    assert_eq!(d.state(), LoopState::Running);
    assert_eq!(g.calls, vec!["key_pressed:Escape".to_string()]);
}

#[test]
fn close_request_exits_without_any_callback() {
    let mut d = Dispatcher::new(Options::default());
    let mut g = RecGame::new();
    d.enqueue_host(RawHostEvent::CloseRequested);
    assert!(d.pump(&mut g).is_ok());
    assert_eq!(d.state(), LoopState::Exiting);
    assert!(g.calls.is_empty());
}

#[test]
fn exit_requested_in_update_is_seen_at_the_frame_boundary() {
    let mut d = Dispatcher::new(Options::default());
    let mut g = RecGame::new();
    g.exit_in_update = true;
    let r = d.frame(&mut g);
    assert!(r.is_ok());
    assert_eq!(g.calls, vec!["update".to_string(), "render".to_string()]);
    assert_eq!(d.state(), LoopState::Exiting);
}

#[test]
fn update_failure_aborts_the_frame_before_render() {
    let mut d = Dispatcher::new(Options::default());
    let mut g = RecGame::new();
    g.fail_update = true;
    let r = d.frame(&mut g);
    assert_eq!(r.unwrap_err().message().as_str(), "update failed");
    assert_eq!(g.calls, vec!["update".to_string()]);
    assert_eq!(d.state(), LoopState::Exiting);
}

#[test]
fn callback_failure_stops_the_batch_at_once() {
    let mut d = Dispatcher::new(Options::default());
    let mut g = RecGame::new();
    g.fail_key = true;
    d.enqueue_host(RawHostEvent::KeyInput { code: 0, pressed: true });
    d.enqueue_host(RawHostEvent::KeyInput { code: 1, pressed: true });
    d.enqueue_host(RawHostEvent::CharTyped { ch: 'z' });
    let r = d.pump(&mut g);
    assert_eq!(r.unwrap_err().message().as_str(), "key failed");
    assert_eq!(g.calls, vec!["key_pressed:A".to_string()]);
    assert_eq!(d.state(), LoopState::Exiting);
}

#[test]
fn no_callback_fires_once_exiting_even_for_queued_events() {
    let mut d = Dispatcher::new(Options::default());
    let mut g = RecGame::new();
    d.enqueue_host(RawHostEvent::CloseRequested);
    assert!(d.pump(&mut g).is_ok());
    assert_eq!(d.state(), LoopState::Exiting);
    d.enqueue_host(RawHostEvent::KeyInput { code: 0, pressed: true });
    assert!(d.pump(&mut g).is_ok());
    assert!(d.frame(&mut g).unwrap().is_none());
    assert!(g.calls.is_empty());
    d.shutdown();
    assert_eq!(d.state(), LoopState::Stopped);
}

#[test]
fn render_twice_supersedes_and_does_not_panic() {
    let mut d = Dispatcher::new(Options::default());
    let mut g = RecGame::new();
    g.second_draw = Some(9);
    let r = d.frame(&mut g);
    assert_eq!(r.unwrap(), Some(9));
}

#[test]
fn render_context_records_the_last_request() {
    let mut rctx = RenderContext::new();
    assert_eq!(rctx.pending(), None);
    rctx.render(3);
    assert_eq!(rctx.pending(), Some(3));
    rctx.render(11);
    assert_eq!(rctx.pending(), Some(11));
}

#[test]
fn scaled_line_scroll_reaches_the_game_in_pixels() {
    let mut d = Dispatcher::new(Options {
        enable_gamepad: true,
        scroll_pixel_factor: sample(2.0),
    });
    let mut g = RecGame::new();
    let factor = 2.0f32;
    d.enqueue_host(RawHostEvent::Scroll {
        kind: yagl::ScrollKind::Lines,
        delta: vec2(1.0, -1.0),
        scaled: vec2(1.0 * factor, -1.0 * factor),
    });
    assert!(d.pump(&mut g).is_ok());
    let want = format!("scroll:{}:{}", 2.0f32.to_bits(), (-2.0f32).to_bits());
    assert_eq!(g.calls, vec![want]);
}

#[test]
fn input_state_tracks_keys_cursor_and_buttons() {
    let mut d = Dispatcher::new(Options::default());
    let mut g = RecGame::new();
    d.enqueue_host(RawHostEvent::KeyInput { code: 0, pressed: true });
    d.enqueue_host(RawHostEvent::CursorMoved { pos: vec2(10.0, 20.0) });
    d.enqueue_host(RawHostEvent::MouseInput { code: 0, pressed: true });
    assert!(d.pump(&mut g).is_ok());
    assert!(d.context().input().is_key_down(Key::A));
    assert!(!d.context().input().is_key_down(Key::B));
    assert!(d.context().input().is_mouse_down(MouseButton::Left));
    assert_eq!(d.context().input().cursor(), vec2(10.0, 20.0));
    let want = format!(
        "mouse_pressed:Left:{}:{}",
        10.0f32.to_bits(),
        20.0f32.to_bits()
    );
    assert_eq!(g.calls[2], want);
    d.enqueue_host(RawHostEvent::KeyInput { code: 0, pressed: false });
    d.enqueue_host(RawHostEvent::MouseInput { code: 0, pressed: false });
    assert!(d.pump(&mut g).is_ok());
    assert!(!d.context().input().is_key_down(Key::A));
    assert!(!d.context().input().is_mouse_down(MouseButton::Left));
}

#[test]
fn reconnect_never_reuses_a_retired_device_id() {
    let mut d = Dispatcher::new(Options::default());
    let mut g = RecGame::new();
    d.enqueue_pad(RawPadEvent::Connected { handle: 5 });
    assert!(d.pump(&mut g).is_ok());
    assert_eq!(g.calls, vec!["pad_connected:0".to_string()]);
    // The backend recycles handle 5 for the new connection; the shell
    // must issue a fresh identifier and attribute later reports to it.
    d.enqueue_pad(RawPadEvent::Disconnected { handle: 5 });
    d.enqueue_pad(RawPadEvent::Connected { handle: 5 });
    d.enqueue_pad(RawPadEvent::Button { handle: 5, code: 0, pressed: true });
    assert!(d.pump(&mut g).is_ok());
    assert_eq!(
        g.calls[1..].to_vec(),
        vec![
            "pad_disconnected:0".to_string(),
            "pad_connected:1".to_string(),
            "pad_pressed:1:South".to_string()
        ]
    );
    let pads = d.context().input().pads();
    assert_eq!(pads.len(), 1);
    assert_eq!(pads[0].raw, 1);
}

#[test]
fn reports_for_unknown_pads_or_codes_are_dropped() {
    let mut d = Dispatcher::new(Options::default());
    let mut g = RecGame::new();
    d.enqueue_pad(RawPadEvent::Button { handle: 9, code: 0, pressed: true });
    d.enqueue_pad(RawPadEvent::Disconnected { handle: 9 });
    d.enqueue_pad(RawPadEvent::Connected { handle: 2 });
    d.enqueue_pad(RawPadEvent::Button { handle: 2, code: 99, pressed: true });
    d.enqueue_pad(RawPadEvent::Axis { handle: 2, code: 99, value: sample(0.5) });
    d.enqueue_pad(RawPadEvent::Axis { handle: 2, code: 0, value: sample(0.5) });
    assert!(d.pump(&mut g).is_ok());
    let want_axis = format!("pad_axis:0:LeftStickX:{}", 0.5f32.to_bits());
    assert_eq!(g.calls, vec!["pad_connected:0".to_string(), want_axis]);
}

#[test]
fn disabled_gamepad_support_silences_every_pad_callback() {
    let mut d = Dispatcher::new(Options {
        enable_gamepad: false,
        scroll_pixel_factor: sample(1.0),
    });
    let mut g = RecGame::new();
    assert!(!d.should_start_poller());
    d.enqueue_pad(RawPadEvent::Connected { handle: 1 });
    d.enqueue_pad(RawPadEvent::Button { handle: 1, code: 0, pressed: true });
    d.enqueue_pad(RawPadEvent::Axis { handle: 1, code: 0, value: sample(0.25) });
    d.enqueue_pad(RawPadEvent::Disconnected { handle: 1 });
    assert!(d.pump(&mut g).is_ok());
    assert!(d.frame(&mut g).is_ok());
    assert_eq!(g.calls, vec!["update".to_string(), "render".to_string()]);
    assert!(d.context().input().pads().is_empty());
}

#[test]
fn input_state_tracks_pad_buttons_and_axes() {
    let mut d = Dispatcher::new(Options::default());
    let mut g = RecGame::new();
    d.enqueue_pad(RawPadEvent::Connected { handle: 3 });
    d.enqueue_pad(RawPadEvent::Button { handle: 3, code: 0, pressed: true });
    d.enqueue_pad(RawPadEvent::Axis { handle: 3, code: 1, value: sample(0.75) });
    assert!(d.pump(&mut g).is_ok());
    let dev = DeviceId { raw: 0 };
    assert!(d.context().input().is_pad_button_down(dev, GamepadButton::South));
    assert!(!d.context().input().is_pad_button_down(dev, GamepadButton::North));
    assert_eq!(d.context().input().axis_value(dev, Axis::LeftStickY), Some(sample(0.75)));
    assert_eq!(d.context().input().axis_value(dev, Axis::LeftStickX), None);
    d.enqueue_pad(RawPadEvent::Axis { handle: 3, code: 1, value: sample(-0.5) });
    d.enqueue_pad(RawPadEvent::Button { handle: 3, code: 0, pressed: false });
    assert!(d.pump(&mut g).is_ok());
    assert_eq!(d.context().input().axis_value(dev, Axis::LeftStickY), Some(sample(-0.5)));
    assert!(!d.context().input().is_pad_button_down(dev, GamepadButton::South));
}

#[test]
fn disconnect_retires_every_trace_of_the_device() {
    let mut d = Dispatcher::new(Options::default());
    let mut g = RecGame::new();
    d.enqueue_pad(RawPadEvent::Connected { handle: 3 });
    d.enqueue_pad(RawPadEvent::Button { handle: 3, code: 0, pressed: true });
    d.enqueue_pad(RawPadEvent::Axis { handle: 3, code: 0, value: sample(0.25) });
    d.enqueue_pad(RawPadEvent::Disconnected { handle: 3 });
    assert!(d.pump(&mut g).is_ok());
    let dev = DeviceId { raw: 0 };
    assert!(d.context().input().pads().is_empty());
    assert!(!d.context().input().is_pad_button_down(dev, GamepadButton::South));
    assert_eq!(d.context().input().axis_value(dev, Axis::LeftStickX), None);
}

#[test]
fn button_pos_tracks_the_latest_cursor_motion() {
    let mut d = Dispatcher::new(Options::default());
    let mut g = RecGame::new();
    d.enqueue_host(RawHostEvent::CursorMoved { pos: vec2(1.0, 2.0) });
    d.enqueue_host(RawHostEvent::CursorMoved { pos: vec2(10.0, 20.0) });
    d.enqueue_host(RawHostEvent::MouseInput { code: 0, pressed: true });
    assert!(d.pump(&mut g).is_ok());
    let want = format!(
        "mouse_pressed:Left:{}:{}",
        10.0f32.to_bits(),
        20.0f32.to_bits()
    );
    assert_eq!(g.calls[2], want);
}
