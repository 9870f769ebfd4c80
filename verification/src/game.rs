use vstd::prelude::*;

use crate::context::AppContext;
use crate::context::RenderContext;
use crate::input::Axis;
use crate::input::DeviceId;
use crate::input::GamepadButton;
use crate::input::Key;
use crate::input::MouseButton;
use crate::input::Sample;
use crate::input::Vec2;

verus! {

/// The failure a game callback may report. The first failure aborts the
/// loop and is surfaced, wrapped in nothing, to the caller of the run
/// entry point.
#[derive(Debug)]
pub struct Error {
    message: String,
}

impl Error {
    /// The text carried by this failure.
    pub closed spec fn spec_message(self) -> Seq<char> {
        self.message@
    }

    pub fn new(message: String) -> (r: Error)
        ensures
            r.spec_message() == message@,
    {
        Error { message }
    }

    pub fn message(&self) -> (r: &String)
        ensures
            r@ == self.spec_message(),
    {
        &self.message
    }
}

/// The bit pattern of the unit scale factor: the single-precision
/// encoding of one, the default scroll factor.
pub const UNIT_SCALE_BITS: u32 = 0x3F80_0000;

/// Per-run configuration, read once before the loop starts and never
/// mutated afterwards.
#[derive(Clone, Copy, PartialEq, Eq, Structural, Debug)]
pub struct Options {
    /// Whether to start the background gamepad poller. When false, no
    /// poller thread is started and no gamepad callback ever fires.
    pub enable_gamepad: bool,
    /// Factor the host multiplies into line-based scroll deltas before
    /// they are handed to the core, so every scroll event the game sees
    /// is in pixel-equivalent units. Carried as an opaque sample; the
    /// host performs the multiplication.
    pub scroll_pixel_factor: Sample,
}

impl Options {
    /// Gamepad support on, scroll factor one.
    pub open spec fn spec_default() -> Options {
        Options {
            enable_gamepad: true,
            scroll_pixel_factor: Sample { bits: UNIT_SCALE_BITS },
        }
    }
}

impl Default for Options {
    fn default() -> (r: Options)
        ensures
            r == Options::spec_default(),
    {
        Options { enable_gamepad: true, scroll_pixel_factor: Sample { bits: UNIT_SCALE_BITS } }
    }
}

/// The lifecycle contract a game implements. The dispatch loop calls
/// `options` once at startup, then, per frame, drains pending events into
/// the reactive callbacks and finally calls `update` and `render`. Any
/// callback may fail; the first failure aborts the loop.
///
/// Every callback except `update` and `render` has a no-op default. The
/// default for `key_pressed` requests exit on `Escape`; an implementation
/// that overrides it fully replaces that behavior and must call
/// [`AppContext::exit`] itself if it wants the Escape shortcut.
pub trait Game where Self: Sized {
    /// Called exactly once, before the loop starts.
    fn options(&self) -> (r: Options)
        default_ensures
            r == Options::spec_default(),
    {
        Options::default()
    }

    /// Called once per frame, after the frame's events have been drained
    /// and before `render`.
    fn update(&mut self, actx: &mut AppContext) -> Result<(), Error>;

    /// Called at most once per frame, after `update`. The game records
    /// its draw request on `rctx`; recording a second request within the
    /// same call replaces the first rather than adding to it.
    fn render(&mut self, actx: &mut AppContext, rctx: &mut RenderContext) -> Result<(), Error>;

    /// Called when the window is resized.
    fn resize(&mut self, actx: &mut AppContext, width: u32, height: u32) -> (r: Result<
        (),
        Error,
    >)
        default_ensures
            r is Ok,
            *final (actx) == *old(actx),
    {
        Ok(())
    }

    /// Called on character input.
    fn char(&mut self, actx: &mut AppContext, ch: char) -> (r: Result<(), Error>)
        default_ensures
            r is Ok,
            *final (actx) == *old(actx),
    {
        Ok(())
    }

    /// Called when a recognized key goes down. A physical key outside
    /// the recognized set produces no call at all.
    ///
    /// The default requests exit when the key is `Escape` and does
    /// nothing otherwise; an override replaces this entirely.
    fn key_pressed(&mut self, actx: &mut AppContext, key: Key) -> (r: Result<(), Error>)
        default_ensures
            r is Ok,
            key == Key::Escape ==> final (actx).spec_exit_requested(),
            key == Key::Escape ==> final (actx).spec_input() == old(actx).spec_input(),
            key != Key::Escape ==> *final (actx) == *old(actx),
    {
        if let Key::Escape = key {
            actx.exit();
        }
        Ok(())
    }

    /// Called when a recognized key goes up.
    fn key_released(&mut self, actx: &mut AppContext, key: Key) -> (r: Result<(), Error>)
        default_ensures
            r is Ok,
            *final (actx) == *old(actx),
    {
        Ok(())
    }

    /// Called when the cursor moves; `pos` is in the window's coordinate
    /// space.
    fn mouse_moved(&mut self, actx: &mut AppContext, pos: Vec2) -> (r: Result<(), Error>)
        default_ensures
            r is Ok,
            *final (actx) == *old(actx),
    {
        Ok(())
    }

    /// Called when a mouse button goes down at `pos`.
    fn mouse_button_pressed(
        &mut self,
        actx: &mut AppContext,
        pos: Vec2,
        button: MouseButton,
    ) -> (r: Result<(), Error>)
        default_ensures
            r is Ok,
            *final (actx) == *old(actx),
    {
        Ok(())
    }

    /// Called when a mouse button goes up at `pos`.
    fn mouse_button_released(
        &mut self,
        actx: &mut AppContext,
        pos: Vec2,
        button: MouseButton,
    ) -> (r: Result<(), Error>)
        default_ensures
            r is Ok,
            *final (actx) == *old(actx),
    {
        Ok(())
    }

    /// Called on a wheel or trackpad scroll at `pos`. The delta is
    /// `[horizontal, vertical]`, always in pixel-equivalent units: line
    /// deltas were already multiplied by the configured factor.
    fn scroll(&mut self, actx: &mut AppContext, pos: Vec2, delta: Vec2) -> (r: Result<
        (),
        Error,
    >)
        default_ensures
            r is Ok,
            *final (actx) == *old(actx),
    {
        Ok(())
    }

    /// Called when a gamepad connects; `dev` is fresh and identifies the
    /// connection until the matching disconnect.
    fn gamepad_connected(&mut self, actx: &mut AppContext, dev: DeviceId) -> (r: Result<
        (),
        Error,
    >)
        default_ensures
            r is Ok,
            *final (actx) == *old(actx),
    {
        Ok(())
    }

    /// Called when a gamepad disconnects; `dev` is retired and never
    /// issued again.
    fn gamepad_disconnected(&mut self, actx: &mut AppContext, dev: DeviceId) -> (r: Result<
        (),
        Error,
    >)
        default_ensures
            r is Ok,
            *final (actx) == *old(actx),
    {
        Ok(())
    }

    /// Called when a button on gamepad `dev` goes down.
    fn gamepad_button_pressed(
        &mut self,
        actx: &mut AppContext,
        dev: DeviceId,
        button: GamepadButton,
    ) -> (r: Result<(), Error>)
        default_ensures
            r is Ok,
            *final (actx) == *old(actx),
    {
        Ok(())
    }

    /// Called when a button on gamepad `dev` goes up.
    fn gamepad_button_released(
        &mut self,
        actx: &mut AppContext,
        dev: DeviceId,
        button: GamepadButton,
    ) -> (r: Result<(), Error>)
        default_ensures
            r is Ok,
            *final (actx) == *old(actx),
    {
        Ok(())
    }

    /// Called when an axis on gamepad `dev` changes; `value` is the raw
    /// backend sample, with no deadzone filtering applied.
    fn gamepad_axis_changed(
        &mut self,
        actx: &mut AppContext,
        dev: DeviceId,
        axis: Axis,
        value: Sample,
    ) -> (r: Result<(), Error>)
        default_ensures
            r is Ok,
            *final (actx) == *old(actx),
    {
        Ok(())
    }
}

} // verus!
