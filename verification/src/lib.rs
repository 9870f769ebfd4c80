//! A small game-loop shell: it normalizes raw host input events into a
//! closed event vocabulary, tracks device identity and input state, and
//! drives a user-supplied game through a fixed per-frame lifecycle
//! (drain events, then update, then render).
//!
//! The windowing backend, the GPU renderer and the gamepad backend are
//! external collaborators: the host binary polls them and hands this
//! crate plain values. Fractional quantities (cursor positions, scroll
//! deltas, axis values) travel through the core as opaque 32-bit
//! samples, so the core itself never performs fractional arithmetic.

mod context;
mod dispatch;
mod events;
mod game;
mod input;
mod registry;

pub use context::AppContext;
pub use context::InputState;
pub use context::RenderContext;
pub use game::Error;
pub use game::Game;
pub use game::Options;
pub use game::UNIT_SCALE_BITS;
pub use dispatch::CallRecord;
pub use dispatch::Dispatcher;
pub use dispatch::LoopState;
pub use dispatch::no_pad_events;
pub use dispatch::no_pad_records;
pub use dispatch::record_of;
pub use dispatch::records_of;
pub use dispatch::render_count;
pub use dispatch::update_count;
pub use events::Event;
pub use events::RawHostEvent;
pub use events::RawPadEvent;
pub use events::ScrollKind;
pub use events::normalize_host;
pub use events::spec_normalize_host;
pub use events::lemma_unmapped_key_yields_no_event;
pub use events::lemma_scroll_unit_conversion;
pub use input::Axis;
pub use input::axis_from_code;
pub use input::gamepad_button_from_code;
pub use input::key_from_code;
pub use input::mouse_button_from_code;
pub use input::spec_axis_from_code;
pub use input::spec_gamepad_button_from_code;
pub use input::spec_key_from_code;
pub use input::spec_mouse_button_from_code;
pub use registry::GamepadRegistry;
pub use input::DeviceId;
pub use input::GamepadButton;
pub use input::Key;
pub use input::MouseButton;
pub use input::Sample;
pub use input::Vec2;
