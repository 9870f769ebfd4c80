use vstd::prelude::*;

verus! {

/// An opaque 32-bit sample carrying a fractional quantity (a coordinate,
/// a scroll delta, an axis position) as the bit pattern the host read
/// from its input source. The core moves samples around but never does
/// arithmetic on them; the host interprets the bits.
#[derive(Clone, Copy, PartialEq, Eq, Structural, Debug)]
pub struct Sample {
    pub bits: u32,
}

/// A pair of samples: a cursor position or a two-axis delta, ordered
/// `[horizontal, vertical]`.
#[derive(Clone, Copy, PartialEq, Eq, Structural, Debug)]
pub struct Vec2 {
    pub x: Sample,
    pub y: Sample,
}

/// A stable identifier for one gamepad connection. A fresh value is
/// issued on every connect event, so an identifier retired by a
/// disconnect is never seen again, even if the backend recycles its own
/// handle for the new connection.
#[derive(Clone, Copy, PartialEq, Eq, Structural, Debug)]
pub struct DeviceId {
    pub raw: u64,
}


/// A recognized logical keyboard key. A physical key outside this set produces no event.
#[derive(Clone, Copy, PartialEq, Eq, Structural, Debug)]
pub enum Key {
    A,
    B,
    C,
    D,
    E,
    F,
    G,
    H,
    I,
    J,
    K,
    L,
    M,
    N,
    O,
    P,
    Q,
    R,
    S,
    T,
    U,
    V,
    W,
    X,
    Y,
    Z,
    Num0,
    Num1,
    Num2,
    Num3,
    Num4,
    Num5,
    Num6,
    Num7,
    Num8,
    Num9,
    Escape,
    Space,
    Return,
    Backspace,
    Tab,
    Up,
    Down,
    Left,
    Right,
    Home,
    End,
    PageUp,
    PageDown,
    Insert,
    Delete,
    LeftShift,
    RightShift,
    LeftControl,
    RightControl,
    LeftAlt,
    RightAlt,
    F1,
    F2,
    F3,
    F4,
    F5,
    F6,
    F7,
    F8,
    F9,
    F10,
    F11,
    F12,
}

/// A recognized mouse button.
#[derive(Clone, Copy, PartialEq, Eq, Structural, Debug)]
pub enum MouseButton {
    Left,
    Right,
    Middle,
}

/// A recognized gamepad button.
#[derive(Clone, Copy, PartialEq, Eq, Structural, Debug)]
pub enum GamepadButton {
    South,
    East,
    North,
    West,
    C,
    Z,
    LeftTrigger,
    LeftTrigger2,
    RightTrigger,
    RightTrigger2,
    Select,
    Start,
    Mode,
    LeftThumb,
    RightThumb,
    DPadUp,
    DPadDown,
    DPadLeft,
    DPadRight,
}

/// A recognized gamepad axis.
#[derive(Clone, Copy, PartialEq, Eq, Structural, Debug)]
pub enum Axis {
    LeftStickX,
    LeftStickY,
    LeftZ,
    RightStickX,
    RightStickY,
    RightZ,
    DPadX,
    DPadY,
}

/// The Key named by raw code `code` in the host mapping table, if any.
pub open spec fn spec_key_from_code(code: u32) -> Option<Key> {
    match code {
        0u32 => Some(Key::A),
        1u32 => Some(Key::B),
        2u32 => Some(Key::C),
        3u32 => Some(Key::D),
        4u32 => Some(Key::E),
        5u32 => Some(Key::F),
        6u32 => Some(Key::G),
        7u32 => Some(Key::H),
        8u32 => Some(Key::I),
        9u32 => Some(Key::J),
        10u32 => Some(Key::K),
        11u32 => Some(Key::L),
        12u32 => Some(Key::M),
        13u32 => Some(Key::N),
        14u32 => Some(Key::O),
        15u32 => Some(Key::P),
        16u32 => Some(Key::Q),
        17u32 => Some(Key::R),
        18u32 => Some(Key::S),
        19u32 => Some(Key::T),
        20u32 => Some(Key::U),
        21u32 => Some(Key::V),
        22u32 => Some(Key::W),
        23u32 => Some(Key::X),
        24u32 => Some(Key::Y),
        25u32 => Some(Key::Z),
        26u32 => Some(Key::Num0),
        27u32 => Some(Key::Num1),
        28u32 => Some(Key::Num2),
        29u32 => Some(Key::Num3),
        30u32 => Some(Key::Num4),
        31u32 => Some(Key::Num5),
        32u32 => Some(Key::Num6),
        33u32 => Some(Key::Num7),
        34u32 => Some(Key::Num8),
        35u32 => Some(Key::Num9),
        36u32 => Some(Key::Escape),
        37u32 => Some(Key::Space),
        38u32 => Some(Key::Return),
        39u32 => Some(Key::Backspace),
        40u32 => Some(Key::Tab),
        41u32 => Some(Key::Up),
        42u32 => Some(Key::Down),
        43u32 => Some(Key::Left),
        44u32 => Some(Key::Right),
        45u32 => Some(Key::Home),
        46u32 => Some(Key::End),
        47u32 => Some(Key::PageUp),
        48u32 => Some(Key::PageDown),
        49u32 => Some(Key::Insert),
        50u32 => Some(Key::Delete),
        51u32 => Some(Key::LeftShift),
        52u32 => Some(Key::RightShift),
        53u32 => Some(Key::LeftControl),
        54u32 => Some(Key::RightControl),
        55u32 => Some(Key::LeftAlt),
        56u32 => Some(Key::RightAlt),
        57u32 => Some(Key::F1),
        58u32 => Some(Key::F2),
        59u32 => Some(Key::F3),
        60u32 => Some(Key::F4),
        61u32 => Some(Key::F5),
        62u32 => Some(Key::F6),
        63u32 => Some(Key::F7),
        64u32 => Some(Key::F8),
        65u32 => Some(Key::F9),
        66u32 => Some(Key::F10),
        67u32 => Some(Key::F11),
        68u32 => Some(Key::F12),
        _ => None,
    }
}

/// Looks up the Key for a raw host code; an unrecognized code maps to `None`.
pub fn key_from_code(code: u32) -> (r: Option<Key>)
    ensures
        r == spec_key_from_code(code),
{
    match code {
        0u32 => Some(Key::A),
        1u32 => Some(Key::B),
        2u32 => Some(Key::C),
        3u32 => Some(Key::D),
        4u32 => Some(Key::E),
        5u32 => Some(Key::F),
        6u32 => Some(Key::G),
        7u32 => Some(Key::H),
        8u32 => Some(Key::I),
        9u32 => Some(Key::J),
        10u32 => Some(Key::K),
        11u32 => Some(Key::L),
        12u32 => Some(Key::M),
        13u32 => Some(Key::N),
        14u32 => Some(Key::O),
        15u32 => Some(Key::P),
        16u32 => Some(Key::Q),
        17u32 => Some(Key::R),
        18u32 => Some(Key::S),
        19u32 => Some(Key::T),
        20u32 => Some(Key::U),
        21u32 => Some(Key::V),
        22u32 => Some(Key::W),
        23u32 => Some(Key::X),
        24u32 => Some(Key::Y),
        25u32 => Some(Key::Z),
        26u32 => Some(Key::Num0),
        27u32 => Some(Key::Num1),
        28u32 => Some(Key::Num2),
        29u32 => Some(Key::Num3),
        30u32 => Some(Key::Num4),
        31u32 => Some(Key::Num5),
        32u32 => Some(Key::Num6),
        33u32 => Some(Key::Num7),
        34u32 => Some(Key::Num8),
        35u32 => Some(Key::Num9),
        36u32 => Some(Key::Escape),
        37u32 => Some(Key::Space),
        38u32 => Some(Key::Return),
        39u32 => Some(Key::Backspace),
        40u32 => Some(Key::Tab),
        41u32 => Some(Key::Up),
        42u32 => Some(Key::Down),
        43u32 => Some(Key::Left),
        44u32 => Some(Key::Right),
        45u32 => Some(Key::Home),
        46u32 => Some(Key::End),
        47u32 => Some(Key::PageUp),
        48u32 => Some(Key::PageDown),
        49u32 => Some(Key::Insert),
        50u32 => Some(Key::Delete),
        51u32 => Some(Key::LeftShift),
        52u32 => Some(Key::RightShift),
        53u32 => Some(Key::LeftControl),
        54u32 => Some(Key::RightControl),
        55u32 => Some(Key::LeftAlt),
        56u32 => Some(Key::RightAlt),
        57u32 => Some(Key::F1),
        58u32 => Some(Key::F2),
        59u32 => Some(Key::F3),
        60u32 => Some(Key::F4),
        61u32 => Some(Key::F5),
        62u32 => Some(Key::F6),
        63u32 => Some(Key::F7),
        64u32 => Some(Key::F8),
        65u32 => Some(Key::F9),
        66u32 => Some(Key::F10),
        67u32 => Some(Key::F11),
        68u32 => Some(Key::F12),
        _ => None,
    }
}

/// The MouseButton named by raw code `code` in the host mapping table, if any.
pub open spec fn spec_mouse_button_from_code(code: u32) -> Option<MouseButton> {
    match code {
        0u32 => Some(MouseButton::Left),
        1u32 => Some(MouseButton::Right),
        2u32 => Some(MouseButton::Middle),
        _ => None,
    }
}

/// Looks up the MouseButton for a raw host code; an unrecognized code maps to `None`.
pub fn mouse_button_from_code(code: u32) -> (r: Option<MouseButton>)
    ensures
        r == spec_mouse_button_from_code(code),
{
    match code {
        0u32 => Some(MouseButton::Left),
        1u32 => Some(MouseButton::Right),
        2u32 => Some(MouseButton::Middle),
        _ => None,
    }
}

/// The GamepadButton named by raw code `code` in the host mapping table, if any.
pub open spec fn spec_gamepad_button_from_code(code: u32) -> Option<GamepadButton> {
    match code {
        0u32 => Some(GamepadButton::South),
        1u32 => Some(GamepadButton::East),
        2u32 => Some(GamepadButton::North),
        3u32 => Some(GamepadButton::West),
        4u32 => Some(GamepadButton::C),
        5u32 => Some(GamepadButton::Z),
        6u32 => Some(GamepadButton::LeftTrigger),
        7u32 => Some(GamepadButton::LeftTrigger2),
        8u32 => Some(GamepadButton::RightTrigger),
        9u32 => Some(GamepadButton::RightTrigger2),
        10u32 => Some(GamepadButton::Select),
        11u32 => Some(GamepadButton::Start),
        12u32 => Some(GamepadButton::Mode),
        13u32 => Some(GamepadButton::LeftThumb),
        14u32 => Some(GamepadButton::RightThumb),
        15u32 => Some(GamepadButton::DPadUp),
        16u32 => Some(GamepadButton::DPadDown),
        17u32 => Some(GamepadButton::DPadLeft),
        18u32 => Some(GamepadButton::DPadRight),
        _ => None,
    }
}

/// Looks up the GamepadButton for a raw host code; an unrecognized code maps to `None`.
pub fn gamepad_button_from_code(code: u32) -> (r: Option<GamepadButton>)
    ensures
        r == spec_gamepad_button_from_code(code),
{
    match code {
        0u32 => Some(GamepadButton::South),
        1u32 => Some(GamepadButton::East),
        2u32 => Some(GamepadButton::North),
        3u32 => Some(GamepadButton::West),
        4u32 => Some(GamepadButton::C),
        5u32 => Some(GamepadButton::Z),
        6u32 => Some(GamepadButton::LeftTrigger),
        7u32 => Some(GamepadButton::LeftTrigger2),
        8u32 => Some(GamepadButton::RightTrigger),
        9u32 => Some(GamepadButton::RightTrigger2),
        10u32 => Some(GamepadButton::Select),
        11u32 => Some(GamepadButton::Start),
        12u32 => Some(GamepadButton::Mode),
        13u32 => Some(GamepadButton::LeftThumb),
        14u32 => Some(GamepadButton::RightThumb),
        15u32 => Some(GamepadButton::DPadUp),
        16u32 => Some(GamepadButton::DPadDown),
        17u32 => Some(GamepadButton::DPadLeft),
        18u32 => Some(GamepadButton::DPadRight),
        _ => None,
    }
}

/// The Axis named by raw code `code` in the host mapping table, if any.
pub open spec fn spec_axis_from_code(code: u32) -> Option<Axis> {
    match code {
        0u32 => Some(Axis::LeftStickX),
        1u32 => Some(Axis::LeftStickY),
        2u32 => Some(Axis::LeftZ),
        3u32 => Some(Axis::RightStickX),
        4u32 => Some(Axis::RightStickY),
        5u32 => Some(Axis::RightZ),
        6u32 => Some(Axis::DPadX),
        7u32 => Some(Axis::DPadY),
        _ => None,
    }
}

/// Looks up the Axis for a raw host code; an unrecognized code maps to `None`.
pub fn axis_from_code(code: u32) -> (r: Option<Axis>)
    ensures
        r == spec_axis_from_code(code),
{
    match code {
        0u32 => Some(Axis::LeftStickX),
        1u32 => Some(Axis::LeftStickY),
        2u32 => Some(Axis::LeftZ),
        3u32 => Some(Axis::RightStickX),
        4u32 => Some(Axis::RightStickY),
        5u32 => Some(Axis::RightZ),
        6u32 => Some(Axis::DPadX),
        7u32 => Some(Axis::DPadY),
        _ => None,
    }
}

} // verus!
