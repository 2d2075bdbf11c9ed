//! The typed domain model: the enums, bitfields and hint structures that
//! stand for the native library's integer codes.
//!
//! Every enum that crosses the native boundary carries two total functions:
//! `code`, the integer the native library uses for a variant, and
//! `from_code`, the partial inverse.  Contracts pin both down exactly, so
//! the dispatch bridge can state precisely how raw payloads translate.

use vstd::prelude::*;

use crate::codes::{
    GLFW_ACCUM_ALPHA_BITS, GLFW_ACCUM_BLUE_BITS, GLFW_ACCUM_GREEN_BITS, GLFW_ACCUM_RED_BITS,
    GLFW_ALPHA_BITS, GLFW_ANY_RELEASE_BEHAVIOR, GLFW_API_UNAVAILABLE, GLFW_ARROW_CURSOR,
    GLFW_AUTO_ICONIFY, GLFW_AUX_BUFFERS, GLFW_BLUE_BITS, GLFW_CENTER_CURSOR, GLFW_CLIENT_API,
    GLFW_COCOA_CHDIR_RESOURCES, GLFW_COCOA_GRAPHICS_SWITCHING, GLFW_COCOA_MENUBAR,
    GLFW_COCOA_RETINA_FRAMEBUFFER, GLFW_CONTEXT_CREATION_API, GLFW_CONTEXT_NO_ERROR,
    GLFW_CONTEXT_RELEASE_BEHAVIOR, GLFW_CONTEXT_ROBUSTNESS, GLFW_CONTEXT_VERSION_MAJOR,
    GLFW_CONTEXT_VERSION_MINOR, GLFW_CROSSHAIR_CURSOR, GLFW_CURSOR, GLFW_CURSOR_DISABLED,
    GLFW_CURSOR_HIDDEN, GLFW_CURSOR_NORMAL, GLFW_DECORATED, GLFW_DEPTH_BITS, GLFW_DOUBLEBUFFER,
    GLFW_EGL_CONTEXT_API, GLFW_FLOATING, GLFW_FOCUSED, GLFW_FORMAT_UNAVAILABLE, GLFW_GREEN_BITS,
    GLFW_HAND_CURSOR, GLFW_HOVERED, GLFW_HRESIZE_CURSOR, GLFW_IBEAM_CURSOR, GLFW_ICONIFIED,
    GLFW_INVALID_VALUE, GLFW_JOYSTICK_HAT_BUTTONS, GLFW_LOCK_KEY_MODS, GLFW_LOSE_CONTEXT_ON_RESET,
    GLFW_MAXIMIZED, GLFW_NATIVE_CONTEXT_API, GLFW_NO_API, GLFW_NO_CURRENT_CONTEXT,
    GLFW_NO_RESET_NOTIFICATION, GLFW_NO_ROBUSTNESS, GLFW_NO_WINDOW_CONTEXT, GLFW_OPENGL_ANY_PROFILE,
    GLFW_OPENGL_API, GLFW_OPENGL_COMPAT_PROFILE, GLFW_OPENGL_CORE_PROFILE,
    GLFW_OPENGL_DEBUG_CONTEXT, GLFW_OPENGL_ES_API, GLFW_OPENGL_FORWARD_COMPAT,
    GLFW_OPENGL_PROFILE, GLFW_OSMESA_CONTEXT_API, GLFW_OUT_OF_MEMORY, GLFW_PLATFORM_ERROR,
    GLFW_PRESS, GLFW_RAW_MOUSE_MOTION, GLFW_RED_BITS, GLFW_REFRESH_RATE, GLFW_RELEASE,
    GLFW_RELEASE_BEHAVIOR_FLUSH, GLFW_RELEASE_BEHAVIOR_NONE, GLFW_REPEAT, GLFW_RESIZABLE,
    GLFW_SAMPLES, GLFW_SRGB_CAPABLE, GLFW_STENCIL_BITS, GLFW_STEREO, GLFW_STICKY_KEYS,
    GLFW_STICKY_MOUSE_BUTTONS, GLFW_TRANSPARENT_FRAMEBUFFER, GLFW_VERSION_UNAVAILABLE,
    GLFW_VISIBLE, GLFW_VRESIZE_CURSOR,
};
use crate::util::spec_bool_to_cint;
use crate::util::bool_to_cint;
use crate::util::or_dont_care;
use crate::util::spec_or_dont_care;

verus! {

/// Named keys, mirroring the native key-code table.
#[derive(Copy, Clone, PartialEq, Eq, Structural, Hash, Debug)]
pub enum KeyCode {
    Space,
    Apostrophe,
    Comma,
    Minus,
    Period,
    Slash,
    Zero,
    One,
    Two,
    Three,
    Four,
    Five,
    Six,
    Seven,
    Eight,
    Nine,
    Semicolon,
    Equal,
    A,
    B,
    C,
    D,
    E,
    F,
    G,
    H,
    I,
    J,
    K,
    L,
    M,
    N,
    O,
    P,
    Q,
    R,
    S,
    T,
    U,
    V,
    W,
    X,
    Y,
    Z,
    LeftBracket,
    Backslash,
    RightBracket,
    GraveAccent,
    World1,
    World2,
    Escape,
    Enter,
    Tab,
    Backspace,
    Insert,
    Delete,
    Right,
    Left,
    Down,
    Up,
    PageUp,
    PageDown,
    Home,
    End,
    CapsLock,
    ScrollLock,
    NumLock,
    PrintScreen,
    Pause,
    F1,
    F2,
    F3,
    F4,
    F5,
    F6,
    F7,
    F8,
    F9,
    F10,
    F11,
    F12,
    F13,
    F14,
    F15,
    F16,
    F17,
    F18,
    F19,
    F20,
    F21,
    F22,
    F23,
    F24,
    F25,
    Kp0,
    Kp1,
    Kp2,
    Kp3,
    Kp4,
    Kp5,
    Kp6,
    Kp7,
    Kp8,
    Kp9,
    KpDecimal,
    KpDivide,
    KpMultiply,
    KpSubtract,
    KpAdd,
    KpEnter,
    KpEqual,
    LeftShift,
    LeftControl,
    LeftAlt,
    LeftSuper,
    RightShift,
    RightControl,
    RightAlt,
    RightSuper,
    Menu,
}

impl KeyCode {
    /// The native integer code of this key.
    pub open spec fn spec_code(self) -> i32 {
        match self {
            KeyCode::Space => 32,
            KeyCode::Apostrophe => 39,
            KeyCode::Comma => 44,
            KeyCode::Minus => 45,
            KeyCode::Period => 46,
            KeyCode::Slash => 47,
            KeyCode::Zero => 48,
            KeyCode::One => 49,
            KeyCode::Two => 50,
            KeyCode::Three => 51,
            KeyCode::Four => 52,
            KeyCode::Five => 53,
            KeyCode::Six => 54,
            KeyCode::Seven => 55,
            KeyCode::Eight => 56,
            KeyCode::Nine => 57,
            KeyCode::Semicolon => 59,
            KeyCode::Equal => 61,
            KeyCode::A => 65,
            KeyCode::B => 66,
            KeyCode::C => 67,
            KeyCode::D => 68,
            KeyCode::E => 69,
            KeyCode::F => 70,
            KeyCode::G => 71,
            KeyCode::H => 72,
            KeyCode::I => 73,
            KeyCode::J => 74,
            KeyCode::K => 75,
            KeyCode::L => 76,
            KeyCode::M => 77,
            KeyCode::N => 78,
            KeyCode::O => 79,
            KeyCode::P => 80,
            KeyCode::Q => 81,
            KeyCode::R => 82,
            KeyCode::S => 83,
            KeyCode::T => 84,
            KeyCode::U => 85,
            KeyCode::V => 86,
            KeyCode::W => 87,
            KeyCode::X => 88,
            KeyCode::Y => 89,
            KeyCode::Z => 90,
            KeyCode::LeftBracket => 91,
            KeyCode::Backslash => 92,
            KeyCode::RightBracket => 93,
            KeyCode::GraveAccent => 96,
            KeyCode::World1 => 161,
            KeyCode::World2 => 162,
            KeyCode::Escape => 256,
            KeyCode::Enter => 257,
            KeyCode::Tab => 258,
            KeyCode::Backspace => 259,
            KeyCode::Insert => 260,
            KeyCode::Delete => 261,
            KeyCode::Right => 262,
            KeyCode::Left => 263,
            KeyCode::Down => 264,
            KeyCode::Up => 265,
            KeyCode::PageUp => 266,
            KeyCode::PageDown => 267,
            KeyCode::Home => 268,
            KeyCode::End => 269,
            KeyCode::CapsLock => 280,
            KeyCode::ScrollLock => 281,
            KeyCode::NumLock => 282,
            KeyCode::PrintScreen => 283,
            KeyCode::Pause => 284,
            KeyCode::F1 => 290,
            KeyCode::F2 => 291,
            KeyCode::F3 => 292,
            KeyCode::F4 => 293,
            KeyCode::F5 => 294,
            KeyCode::F6 => 295,
            KeyCode::F7 => 296,
            KeyCode::F8 => 297,
            KeyCode::F9 => 298,
            KeyCode::F10 => 299,
            KeyCode::F11 => 300,
            KeyCode::F12 => 301,
            KeyCode::F13 => 302,
            KeyCode::F14 => 303,
            KeyCode::F15 => 304,
            KeyCode::F16 => 305,
            KeyCode::F17 => 306,
            KeyCode::F18 => 307,
            KeyCode::F19 => 308,
            KeyCode::F20 => 309,
            KeyCode::F21 => 310,
            KeyCode::F22 => 311,
            KeyCode::F23 => 312,
            KeyCode::F24 => 313,
            KeyCode::F25 => 314,
            KeyCode::Kp0 => 320,
            KeyCode::Kp1 => 321,
            KeyCode::Kp2 => 322,
            KeyCode::Kp3 => 323,
            KeyCode::Kp4 => 324,
            KeyCode::Kp5 => 325,
            KeyCode::Kp6 => 326,
            KeyCode::Kp7 => 327,
            KeyCode::Kp8 => 328,
            KeyCode::Kp9 => 329,
            KeyCode::KpDecimal => 330,
            KeyCode::KpDivide => 331,
            KeyCode::KpMultiply => 332,
            KeyCode::KpSubtract => 333,
            KeyCode::KpAdd => 334,
            KeyCode::KpEnter => 335,
            KeyCode::KpEqual => 336,
            KeyCode::LeftShift => 340,
            KeyCode::LeftControl => 341,
            KeyCode::LeftAlt => 342,
            KeyCode::LeftSuper => 343,
            KeyCode::RightShift => 344,
            KeyCode::RightControl => 345,
            KeyCode::RightAlt => 346,
            KeyCode::RightSuper => 347,
            KeyCode::Menu => 348,
        }
    }

    /// The native integer code of this key.
    pub fn code(self) -> (r: i32)
        ensures
            r == self.spec_code(),
    {
        match self {
            KeyCode::Space => 32,
            KeyCode::Apostrophe => 39,
            KeyCode::Comma => 44,
            KeyCode::Minus => 45,
            KeyCode::Period => 46,
            KeyCode::Slash => 47,
            KeyCode::Zero => 48,
            KeyCode::One => 49,
            KeyCode::Two => 50,
            KeyCode::Three => 51,
            KeyCode::Four => 52,
            KeyCode::Five => 53,
            KeyCode::Six => 54,
            KeyCode::Seven => 55,
            KeyCode::Eight => 56,
            KeyCode::Nine => 57,
            KeyCode::Semicolon => 59,
            KeyCode::Equal => 61,
            KeyCode::A => 65,
            KeyCode::B => 66,
            KeyCode::C => 67,
            KeyCode::D => 68,
            KeyCode::E => 69,
            KeyCode::F => 70,
            KeyCode::G => 71,
            KeyCode::H => 72,
            KeyCode::I => 73,
            KeyCode::J => 74,
            KeyCode::K => 75,
            KeyCode::L => 76,
            KeyCode::M => 77,
            KeyCode::N => 78,
            KeyCode::O => 79,
            KeyCode::P => 80,
            KeyCode::Q => 81,
            KeyCode::R => 82,
            KeyCode::S => 83,
            KeyCode::T => 84,
            KeyCode::U => 85,
            KeyCode::V => 86,
            KeyCode::W => 87,
            KeyCode::X => 88,
            KeyCode::Y => 89,
            KeyCode::Z => 90,
            KeyCode::LeftBracket => 91,
            KeyCode::Backslash => 92,
            KeyCode::RightBracket => 93,
            KeyCode::GraveAccent => 96,
            KeyCode::World1 => 161,
            KeyCode::World2 => 162,
            KeyCode::Escape => 256,
            KeyCode::Enter => 257,
            KeyCode::Tab => 258,
            KeyCode::Backspace => 259,
            KeyCode::Insert => 260,
            KeyCode::Delete => 261,
            KeyCode::Right => 262,
            KeyCode::Left => 263,
            KeyCode::Down => 264,
            KeyCode::Up => 265,
            KeyCode::PageUp => 266,
            KeyCode::PageDown => 267,
            KeyCode::Home => 268,
            KeyCode::End => 269,
            KeyCode::CapsLock => 280,
            KeyCode::ScrollLock => 281,
            KeyCode::NumLock => 282,
            KeyCode::PrintScreen => 283,
            KeyCode::Pause => 284,
            KeyCode::F1 => 290,
            KeyCode::F2 => 291,
            KeyCode::F3 => 292,
            KeyCode::F4 => 293,
            KeyCode::F5 => 294,
            KeyCode::F6 => 295,
            KeyCode::F7 => 296,
            KeyCode::F8 => 297,
            KeyCode::F9 => 298,
            KeyCode::F10 => 299,
            KeyCode::F11 => 300,
            KeyCode::F12 => 301,
            KeyCode::F13 => 302,
            KeyCode::F14 => 303,
            KeyCode::F15 => 304,
            KeyCode::F16 => 305,
            KeyCode::F17 => 306,
            KeyCode::F18 => 307,
            KeyCode::F19 => 308,
            KeyCode::F20 => 309,
            KeyCode::F21 => 310,
            KeyCode::F22 => 311,
            KeyCode::F23 => 312,
            KeyCode::F24 => 313,
            KeyCode::F25 => 314,
            KeyCode::Kp0 => 320,
            KeyCode::Kp1 => 321,
            KeyCode::Kp2 => 322,
            KeyCode::Kp3 => 323,
            KeyCode::Kp4 => 324,
            KeyCode::Kp5 => 325,
            KeyCode::Kp6 => 326,
            KeyCode::Kp7 => 327,
            KeyCode::Kp8 => 328,
            KeyCode::Kp9 => 329,
            KeyCode::KpDecimal => 330,
            KeyCode::KpDivide => 331,
            KeyCode::KpMultiply => 332,
            KeyCode::KpSubtract => 333,
            KeyCode::KpAdd => 334,
            KeyCode::KpEnter => 335,
            KeyCode::KpEqual => 336,
            KeyCode::LeftShift => 340,
            KeyCode::LeftControl => 341,
            KeyCode::LeftAlt => 342,
            KeyCode::LeftSuper => 343,
            KeyCode::RightShift => 344,
            KeyCode::RightControl => 345,
            KeyCode::RightAlt => 346,
            KeyCode::RightSuper => 347,
            KeyCode::Menu => 348,
        }
    }

    /// Whether a native key code has an entry in the static table above.
    /// The table occupies these ranges of the code space and nothing else.
    pub open spec fn spec_is_named(code: i32) -> bool {
        ||| code == 32
        ||| code == 39
        ||| (44 <= code <= 57)
        ||| code == 59
        ||| code == 61
        ||| (65 <= code <= 93)
        ||| code == 96
        ||| (161 <= code <= 162)
        ||| (256 <= code <= 269)
        ||| (280 <= code <= 284)
        ||| (290 <= code <= 314)
        ||| (320 <= code <= 336)
        ||| (340 <= code <= 348)
    }

    /// Looks a native key code up in the static table.
    pub fn from_code(code: i32) -> (r: Option<KeyCode>)
        ensures
            (r is Some) == KeyCode::spec_is_named(code),
            r matches Some(k) ==> k.spec_code() == code,
    {
        match code {
            32 => Some(KeyCode::Space),
            39 => Some(KeyCode::Apostrophe),
            44 => Some(KeyCode::Comma),
            45 => Some(KeyCode::Minus),
            46 => Some(KeyCode::Period),
            47 => Some(KeyCode::Slash),
            48 => Some(KeyCode::Zero),
            49 => Some(KeyCode::One),
            50 => Some(KeyCode::Two),
            51 => Some(KeyCode::Three),
            52 => Some(KeyCode::Four),
            53 => Some(KeyCode::Five),
            54 => Some(KeyCode::Six),
            55 => Some(KeyCode::Seven),
            56 => Some(KeyCode::Eight),
            57 => Some(KeyCode::Nine),
            59 => Some(KeyCode::Semicolon),
            61 => Some(KeyCode::Equal),
            65 => Some(KeyCode::A),
            66 => Some(KeyCode::B),
            67 => Some(KeyCode::C),
            68 => Some(KeyCode::D),
            69 => Some(KeyCode::E),
            70 => Some(KeyCode::F),
            71 => Some(KeyCode::G),
            72 => Some(KeyCode::H),
            73 => Some(KeyCode::I),
            74 => Some(KeyCode::J),
            75 => Some(KeyCode::K),
            76 => Some(KeyCode::L),
            77 => Some(KeyCode::M),
            78 => Some(KeyCode::N),
            79 => Some(KeyCode::O),
            80 => Some(KeyCode::P),
            81 => Some(KeyCode::Q),
            82 => Some(KeyCode::R),
            83 => Some(KeyCode::S),
            84 => Some(KeyCode::T),
            85 => Some(KeyCode::U),
            86 => Some(KeyCode::V),
            87 => Some(KeyCode::W),
            88 => Some(KeyCode::X),
            89 => Some(KeyCode::Y),
            90 => Some(KeyCode::Z),
            91 => Some(KeyCode::LeftBracket),
            92 => Some(KeyCode::Backslash),
            93 => Some(KeyCode::RightBracket),
            96 => Some(KeyCode::GraveAccent),
            161 => Some(KeyCode::World1),
            162 => Some(KeyCode::World2),
            256 => Some(KeyCode::Escape),
            257 => Some(KeyCode::Enter),
            258 => Some(KeyCode::Tab),
            259 => Some(KeyCode::Backspace),
            260 => Some(KeyCode::Insert),
            261 => Some(KeyCode::Delete),
            262 => Some(KeyCode::Right),
            263 => Some(KeyCode::Left),
            264 => Some(KeyCode::Down),
            265 => Some(KeyCode::Up),
            266 => Some(KeyCode::PageUp),
            267 => Some(KeyCode::PageDown),
            268 => Some(KeyCode::Home),
            269 => Some(KeyCode::End),
            280 => Some(KeyCode::CapsLock),
            281 => Some(KeyCode::ScrollLock),
            282 => Some(KeyCode::NumLock),
            283 => Some(KeyCode::PrintScreen),
            284 => Some(KeyCode::Pause),
            290 => Some(KeyCode::F1),
            291 => Some(KeyCode::F2),
            292 => Some(KeyCode::F3),
            293 => Some(KeyCode::F4),
            294 => Some(KeyCode::F5),
            295 => Some(KeyCode::F6),
            296 => Some(KeyCode::F7),
            297 => Some(KeyCode::F8),
            298 => Some(KeyCode::F9),
            299 => Some(KeyCode::F10),
            300 => Some(KeyCode::F11),
            301 => Some(KeyCode::F12),
            302 => Some(KeyCode::F13),
            303 => Some(KeyCode::F14),
            304 => Some(KeyCode::F15),
            305 => Some(KeyCode::F16),
            306 => Some(KeyCode::F17),
            307 => Some(KeyCode::F18),
            308 => Some(KeyCode::F19),
            309 => Some(KeyCode::F20),
            310 => Some(KeyCode::F21),
            311 => Some(KeyCode::F22),
            312 => Some(KeyCode::F23),
            313 => Some(KeyCode::F24),
            314 => Some(KeyCode::F25),
            320 => Some(KeyCode::Kp0),
            321 => Some(KeyCode::Kp1),
            322 => Some(KeyCode::Kp2),
            323 => Some(KeyCode::Kp3),
            324 => Some(KeyCode::Kp4),
            325 => Some(KeyCode::Kp5),
            326 => Some(KeyCode::Kp6),
            327 => Some(KeyCode::Kp7),
            328 => Some(KeyCode::Kp8),
            329 => Some(KeyCode::Kp9),
            330 => Some(KeyCode::KpDecimal),
            331 => Some(KeyCode::KpDivide),
            332 => Some(KeyCode::KpMultiply),
            333 => Some(KeyCode::KpSubtract),
            334 => Some(KeyCode::KpAdd),
            335 => Some(KeyCode::KpEnter),
            336 => Some(KeyCode::KpEqual),
            340 => Some(KeyCode::LeftShift),
            341 => Some(KeyCode::LeftControl),
            342 => Some(KeyCode::LeftAlt),
            343 => Some(KeyCode::LeftSuper),
            344 => Some(KeyCode::RightShift),
            345 => Some(KeyCode::RightControl),
            346 => Some(KeyCode::RightAlt),
            347 => Some(KeyCode::RightSuper),
            348 => Some(KeyCode::Menu),
            _ => None,
        }
    }
}

/// A keyboard key: either an entry of the static table, or an unnamed key
/// carrying the raw platform scancode.
#[derive(Copy, Clone, PartialEq, Eq, Structural, Hash, Debug)]
pub enum Key {
    Named(KeyCode),
    Unnamed(i32),
}

impl Key {
    /// Translates the native key callback's code pair: a key code present in
    /// the static table becomes the named key; any other code degrades to an
    /// unnamed key carrying the scancode, never a failure.
    pub fn from_codes(key: i32, scancode: i32) -> (r: Key)
        ensures
            KeyCode::spec_is_named(key) ==> (r matches Key::Named(k) && k.spec_code() == key),
            !KeyCode::spec_is_named(key) ==> r == Key::Unnamed(scancode),
    {
        match KeyCode::from_code(key) {
            Some(k) => Key::Named(k),
            None => Key::Unnamed(scancode),
        }
    }
}

/// The state change a key or mouse-button callback reports.
#[derive(Copy, Clone, PartialEq, Eq, Structural, Hash, Debug)]
pub enum Action {
    Release,
    Press,
    Repeat,
}

impl Action {
    /// The native integer code of this action.
    pub open spec fn spec_code(self) -> i32 {
        match self {
            Action::Release => GLFW_RELEASE,
            Action::Press => GLFW_PRESS,
            Action::Repeat => GLFW_REPEAT,
        }
    }

    /// Which action a native action code denotes.  This single fan-out
    /// function serves every category that carries an action code.
    pub open spec fn spec_from_code(code: i32) -> Option<Action> {
        if code == GLFW_RELEASE {
            Some(Action::Release)
        } else if code == GLFW_PRESS {
            Some(Action::Press)
        } else if code == GLFW_REPEAT {
            Some(Action::Repeat)
        } else {
            None
        }
    }

    /// The native integer code of this action.
    pub fn code(self) -> (r: i32)
        ensures
            r == self.spec_code(),
    {
        match self {
            Action::Release => GLFW_RELEASE,
            Action::Press => GLFW_PRESS,
            Action::Repeat => GLFW_REPEAT,
        }
    }

    /// Which action a native action code denotes.
    pub fn from_code(code: i32) -> (r: Option<Action>)
        ensures
            r == Action::spec_from_code(code),
    {
        if code == GLFW_RELEASE {
            Some(Action::Release)
        } else if code == GLFW_PRESS {
            Some(Action::Press)
        } else if code == GLFW_REPEAT {
            Some(Action::Repeat)
        } else {
            None
        }
    }
}

/// Cursor behaviour while over a window.
#[derive(Copy, Clone, PartialEq, Eq, Structural, Hash, Debug)]
pub enum CursorMode {
    Normal,
    Hidden,
    Disabled,
}

impl CursorMode {
    /// The native integer code of this mode.
    pub open spec fn spec_code(self) -> i32 {
        match self {
            CursorMode::Normal => GLFW_CURSOR_NORMAL,
            CursorMode::Hidden => GLFW_CURSOR_HIDDEN,
            CursorMode::Disabled => GLFW_CURSOR_DISABLED,
        }
    }

    /// Which mode a native code denotes.
    pub open spec fn spec_from_code(code: i32) -> Option<CursorMode> {
        if code == GLFW_CURSOR_NORMAL {
            Some(CursorMode::Normal)
        } else if code == GLFW_CURSOR_HIDDEN {
            Some(CursorMode::Hidden)
        } else if code == GLFW_CURSOR_DISABLED {
            Some(CursorMode::Disabled)
        } else {
            None
        }
    }

    /// The native integer code of this mode.
    pub fn code(self) -> (r: i32)
        ensures
            r == self.spec_code(),
    {
        match self {
            CursorMode::Normal => GLFW_CURSOR_NORMAL,
            CursorMode::Hidden => GLFW_CURSOR_HIDDEN,
            CursorMode::Disabled => GLFW_CURSOR_DISABLED,
        }
    }

    /// Which mode a native code denotes.
    pub fn from_code(code: i32) -> (r: Option<CursorMode>)
        ensures
            r == CursorMode::spec_from_code(code),
    {
        if code == GLFW_CURSOR_NORMAL {
            Some(CursorMode::Normal)
        } else if code == GLFW_CURSOR_HIDDEN {
            Some(CursorMode::Hidden)
        } else if code == GLFW_CURSOR_DISABLED {
            Some(CursorMode::Disabled)
        } else {
            None
        }
    }
}

/// Mouse buttons, numbered as the native library numbers them.
#[derive(Copy, Clone, PartialEq, Eq, Structural, Hash, Debug)]
pub enum MouseButton {
    Left,
    Right,
    Middle,
    Four,
    Five,
    Six,
    Seven,
    Eight,
}

impl MouseButton {
    /// The native integer code of this button.
    pub open spec fn spec_code(self) -> i32 {
        match self {
            MouseButton::Left => 0,
            MouseButton::Right => 1,
            MouseButton::Middle => 2,
            MouseButton::Four => 3,
            MouseButton::Five => 4,
            MouseButton::Six => 5,
            MouseButton::Seven => 6,
            MouseButton::Eight => 7,
        }
    }

    /// Which button a native code denotes.
    pub open spec fn spec_from_code(code: i32) -> Option<MouseButton> {
        if code == 0 {
            Some(MouseButton::Left)
        } else if code == 1 {
            Some(MouseButton::Right)
        } else if code == 2 {
            Some(MouseButton::Middle)
        } else if code == 3 {
            Some(MouseButton::Four)
        } else if code == 4 {
            Some(MouseButton::Five)
        } else if code == 5 {
            Some(MouseButton::Six)
        } else if code == 6 {
            Some(MouseButton::Seven)
        } else if code == 7 {
            Some(MouseButton::Eight)
        } else {
            None
        }
    }

    /// The native integer code of this button.
    pub fn code(self) -> (r: i32)
        ensures
            r == self.spec_code(),
    {
        match self {
            MouseButton::Left => 0,
            MouseButton::Right => 1,
            MouseButton::Middle => 2,
            MouseButton::Four => 3,
            MouseButton::Five => 4,
            MouseButton::Six => 5,
            MouseButton::Seven => 6,
            MouseButton::Eight => 7,
        }
    }

    /// Which button a native code denotes.
    pub fn from_code(code: i32) -> (r: Option<MouseButton>)
        ensures
            r == MouseButton::spec_from_code(code),
    {
        if code == 0 {
            Some(MouseButton::Left)
        } else if code == 1 {
            Some(MouseButton::Right)
        } else if code == 2 {
            Some(MouseButton::Middle)
        } else if code == 3 {
            Some(MouseButton::Four)
        } else if code == 4 {
            Some(MouseButton::Five)
        } else if code == 5 {
            Some(MouseButton::Six)
        } else if code == 6 {
            Some(MouseButton::Seven)
        } else if code == 7 {
            Some(MouseButton::Eight)
        } else {
            None
        }
    }
}

/// Joystick identifiers.
#[derive(Copy, Clone, PartialEq, Eq, Structural, Hash, Debug)]
pub enum Joystick {
    One,
    Two,
    Three,
    Four,
    Five,
    Six,
    Seven,
    Eight,
    Nine,
    Ten,
    Eleven,
    Twelve,
    Thirteen,
    Fourteen,
    Fifteen,
    Sixteen,
}

impl Joystick {
    /// The native integer code of this joystick.
    pub open spec fn spec_code(self) -> i32 {
        match self {
            Joystick::One => 0,
            Joystick::Two => 1,
            Joystick::Three => 2,
            Joystick::Four => 3,
            Joystick::Five => 4,
            Joystick::Six => 5,
            Joystick::Seven => 6,
            Joystick::Eight => 7,
            Joystick::Nine => 8,
            Joystick::Ten => 9,
            Joystick::Eleven => 10,
            Joystick::Twelve => 11,
            Joystick::Thirteen => 12,
            Joystick::Fourteen => 13,
            Joystick::Fifteen => 14,
            Joystick::Sixteen => 15,
        }
    }

    /// Which joystick a native code denotes.
    pub open spec fn spec_from_code(code: i32) -> Option<Joystick> {
        if code == 0 {
            Some(Joystick::One)
        } else if code == 1 {
            Some(Joystick::Two)
        } else if code == 2 {
            Some(Joystick::Three)
        } else if code == 3 {
            Some(Joystick::Four)
        } else if code == 4 {
            Some(Joystick::Five)
        } else if code == 5 {
            Some(Joystick::Six)
        } else if code == 6 {
            Some(Joystick::Seven)
        } else if code == 7 {
            Some(Joystick::Eight)
        } else if code == 8 {
            Some(Joystick::Nine)
        } else if code == 9 {
            Some(Joystick::Ten)
        } else if code == 10 {
            Some(Joystick::Eleven)
        } else if code == 11 {
            Some(Joystick::Twelve)
        } else if code == 12 {
            Some(Joystick::Thirteen)
        } else if code == 13 {
            Some(Joystick::Fourteen)
        } else if code == 14 {
            Some(Joystick::Fifteen)
        } else if code == 15 {
            Some(Joystick::Sixteen)
        } else {
            None
        }
    }

    /// The native integer code of this joystick.
    pub fn code(self) -> (r: i32)
        ensures
            r == self.spec_code(),
    {
        match self {
            Joystick::One => 0,
            Joystick::Two => 1,
            Joystick::Three => 2,
            Joystick::Four => 3,
            Joystick::Five => 4,
            Joystick::Six => 5,
            Joystick::Seven => 6,
            Joystick::Eight => 7,
            Joystick::Nine => 8,
            Joystick::Ten => 9,
            Joystick::Eleven => 10,
            Joystick::Twelve => 11,
            Joystick::Thirteen => 12,
            Joystick::Fourteen => 13,
            Joystick::Fifteen => 14,
            Joystick::Sixteen => 15,
        }
    }

    /// Which joystick a native code denotes.
    pub fn from_code(code: i32) -> (r: Option<Joystick>)
        ensures
            r == Joystick::spec_from_code(code),
    {
        if code == 0 {
            Some(Joystick::One)
        } else if code == 1 {
            Some(Joystick::Two)
        } else if code == 2 {
            Some(Joystick::Three)
        } else if code == 3 {
            Some(Joystick::Four)
        } else if code == 4 {
            Some(Joystick::Five)
        } else if code == 5 {
            Some(Joystick::Six)
        } else if code == 6 {
            Some(Joystick::Seven)
        } else if code == 7 {
            Some(Joystick::Eight)
        } else if code == 8 {
            Some(Joystick::Nine)
        } else if code == 9 {
            Some(Joystick::Ten)
        } else if code == 10 {
            Some(Joystick::Eleven)
        } else if code == 11 {
            Some(Joystick::Twelve)
        } else if code == 12 {
            Some(Joystick::Thirteen)
        } else if code == 13 {
            Some(Joystick::Fourteen)
        } else if code == 14 {
            Some(Joystick::Fifteen)
        } else if code == 15 {
            Some(Joystick::Sixteen)
        } else {
            None
        }
    }
}

/// The recoverable error kinds the native library can report.
#[derive(Copy, Clone, PartialEq, Eq, Structural, Hash, Debug)]
pub enum ErrorKind {
    NoCurrentContext,
    InvalidValue,
    OutOfMemory,
    ApiUnavailable,
    VersionUnavailable,
    PlatformError,
    FormatUnavailable,
    NoWindowContext,
}

impl ErrorKind {
    /// The native error code of this kind.
    pub open spec fn spec_code(self) -> i32 {
        match self {
            ErrorKind::NoCurrentContext => GLFW_NO_CURRENT_CONTEXT,
            ErrorKind::InvalidValue => GLFW_INVALID_VALUE,
            ErrorKind::OutOfMemory => GLFW_OUT_OF_MEMORY,
            ErrorKind::ApiUnavailable => GLFW_API_UNAVAILABLE,
            ErrorKind::VersionUnavailable => GLFW_VERSION_UNAVAILABLE,
            ErrorKind::PlatformError => GLFW_PLATFORM_ERROR,
            ErrorKind::FormatUnavailable => GLFW_FORMAT_UNAVAILABLE,
            ErrorKind::NoWindowContext => GLFW_NO_WINDOW_CONTEXT,
        }
    }

    /// Which recoverable kind a native error code denotes; the no-error
    /// code and the two codes that only a wrapper bug can produce map to
    /// `None`.
    pub open spec fn spec_from_code(code: i32) -> Option<ErrorKind> {
        if code == GLFW_NO_CURRENT_CONTEXT {
            Some(ErrorKind::NoCurrentContext)
        } else if code == GLFW_INVALID_VALUE {
            Some(ErrorKind::InvalidValue)
        } else if code == GLFW_OUT_OF_MEMORY {
            Some(ErrorKind::OutOfMemory)
        } else if code == GLFW_API_UNAVAILABLE {
            Some(ErrorKind::ApiUnavailable)
        } else if code == GLFW_VERSION_UNAVAILABLE {
            Some(ErrorKind::VersionUnavailable)
        } else if code == GLFW_PLATFORM_ERROR {
            Some(ErrorKind::PlatformError)
        } else if code == GLFW_FORMAT_UNAVAILABLE {
            Some(ErrorKind::FormatUnavailable)
        } else if code == GLFW_NO_WINDOW_CONTEXT {
            Some(ErrorKind::NoWindowContext)
        } else {
            None
        }
    }

    /// The native error code of this kind.
    pub fn code(self) -> (r: i32)
        ensures
            r == self.spec_code(),
    {
        match self {
            ErrorKind::NoCurrentContext => GLFW_NO_CURRENT_CONTEXT,
            ErrorKind::InvalidValue => GLFW_INVALID_VALUE,
            ErrorKind::OutOfMemory => GLFW_OUT_OF_MEMORY,
            ErrorKind::ApiUnavailable => GLFW_API_UNAVAILABLE,
            ErrorKind::VersionUnavailable => GLFW_VERSION_UNAVAILABLE,
            ErrorKind::PlatformError => GLFW_PLATFORM_ERROR,
            ErrorKind::FormatUnavailable => GLFW_FORMAT_UNAVAILABLE,
            ErrorKind::NoWindowContext => GLFW_NO_WINDOW_CONTEXT,
        }
    }

    /// Which recoverable kind a native error code denotes.
    pub fn from_code(code: i32) -> (r: Option<ErrorKind>)
        ensures
            r == ErrorKind::spec_from_code(code),
    {
        if code == GLFW_NO_CURRENT_CONTEXT {
            Some(ErrorKind::NoCurrentContext)
        } else if code == GLFW_INVALID_VALUE {
            Some(ErrorKind::InvalidValue)
        } else if code == GLFW_OUT_OF_MEMORY {
            Some(ErrorKind::OutOfMemory)
        } else if code == GLFW_API_UNAVAILABLE {
            Some(ErrorKind::ApiUnavailable)
        } else if code == GLFW_VERSION_UNAVAILABLE {
            Some(ErrorKind::VersionUnavailable)
        } else if code == GLFW_PLATFORM_ERROR {
            Some(ErrorKind::PlatformError)
        } else if code == GLFW_FORMAT_UNAVAILABLE {
            Some(ErrorKind::FormatUnavailable)
        } else if code == GLFW_NO_WINDOW_CONTEXT {
            Some(ErrorKind::NoWindowContext)
        } else {
            None
        }
    }
}

/// The cursor images the native library provides by itself.
#[derive(Copy, Clone, PartialEq, Eq, Structural, Hash, Debug)]
pub enum StandardCursorShape {
    Arrow,
    IBeam,
    Crosshair,
    Hand,
    HResize,
    VResize,
}

impl StandardCursorShape {
    /// The native integer code of this shape.
    pub open spec fn spec_code(self) -> i32 {
        match self {
            StandardCursorShape::Arrow => GLFW_ARROW_CURSOR,
            StandardCursorShape::IBeam => GLFW_IBEAM_CURSOR,
            StandardCursorShape::Crosshair => GLFW_CROSSHAIR_CURSOR,
            StandardCursorShape::Hand => GLFW_HAND_CURSOR,
            StandardCursorShape::HResize => GLFW_HRESIZE_CURSOR,
            StandardCursorShape::VResize => GLFW_VRESIZE_CURSOR,
        }
    }

    /// The native integer code of this shape.
    pub fn code(self) -> (r: i32)
        ensures
            r == self.spec_code(),
    {
        match self {
            StandardCursorShape::Arrow => GLFW_ARROW_CURSOR,
            StandardCursorShape::IBeam => GLFW_IBEAM_CURSOR,
            StandardCursorShape::Crosshair => GLFW_CROSSHAIR_CURSOR,
            StandardCursorShape::Hand => GLFW_HAND_CURSOR,
            StandardCursorShape::HResize => GLFW_HRESIZE_CURSOR,
            StandardCursorShape::VResize => GLFW_VRESIZE_CURSOR,
        }
    }
}

/// Which client rendering interface a context is created for.
#[derive(Copy, Clone, PartialEq, Eq, Structural, Hash, Debug)]
pub enum ClientApi {
    OpenGl,
    OpenGlEs,
    NoApi,
}

impl ClientApi {
    /// The native integer code of this interface.
    pub open spec fn spec_code(self) -> i32 {
        match self {
            ClientApi::OpenGl => GLFW_OPENGL_API,
            ClientApi::OpenGlEs => GLFW_OPENGL_ES_API,
            ClientApi::NoApi => GLFW_NO_API,
        }
    }

    /// Which interface a native code denotes.
    pub open spec fn spec_from_code(code: i32) -> Option<ClientApi> {
        if code == GLFW_OPENGL_API {
            Some(ClientApi::OpenGl)
        } else if code == GLFW_OPENGL_ES_API {
            Some(ClientApi::OpenGlEs)
        } else if code == GLFW_NO_API {
            Some(ClientApi::NoApi)
        } else {
            None
        }
    }

    /// The native integer code of this interface.
    pub fn code(self) -> (r: i32)
        ensures
            r == self.spec_code(),
    {
        match self {
            ClientApi::OpenGl => GLFW_OPENGL_API,
            ClientApi::OpenGlEs => GLFW_OPENGL_ES_API,
            ClientApi::NoApi => GLFW_NO_API,
        }
    }

    /// Which interface a native code denotes.
    pub fn from_code(code: i32) -> (r: Option<ClientApi>)
        ensures
            r == ClientApi::spec_from_code(code),
    {
        if code == GLFW_OPENGL_API {
            Some(ClientApi::OpenGl)
        } else if code == GLFW_OPENGL_ES_API {
            Some(ClientApi::OpenGlEs)
        } else if code == GLFW_NO_API {
            Some(ClientApi::NoApi)
        } else {
            None
        }
    }
}

/// The robustness strategy of a context.
#[derive(Copy, Clone, PartialEq, Eq, Structural, Hash, Debug)]
pub enum ContextRobustness {
    NoRobustness,
    NoResetNotification,
    LoseContextOnReset,
}

impl ContextRobustness {
    /// The native integer code of this strategy.
    pub open spec fn spec_code(self) -> i32 {
        match self {
            ContextRobustness::NoRobustness => GLFW_NO_ROBUSTNESS,
            ContextRobustness::NoResetNotification => GLFW_NO_RESET_NOTIFICATION,
            ContextRobustness::LoseContextOnReset => GLFW_LOSE_CONTEXT_ON_RESET,
        }
    }

    /// Which strategy a native code denotes.
    pub open spec fn spec_from_code(code: i32) -> Option<ContextRobustness> {
        if code == GLFW_NO_ROBUSTNESS {
            Some(ContextRobustness::NoRobustness)
        } else if code == GLFW_NO_RESET_NOTIFICATION {
            Some(ContextRobustness::NoResetNotification)
        } else if code == GLFW_LOSE_CONTEXT_ON_RESET {
            Some(ContextRobustness::LoseContextOnReset)
        } else {
            None
        }
    }

    /// The native integer code of this strategy.
    pub fn code(self) -> (r: i32)
        ensures
            r == self.spec_code(),
    {
        match self {
            ContextRobustness::NoRobustness => GLFW_NO_ROBUSTNESS,
            ContextRobustness::NoResetNotification => GLFW_NO_RESET_NOTIFICATION,
            ContextRobustness::LoseContextOnReset => GLFW_LOSE_CONTEXT_ON_RESET,
        }
    }

    /// Which strategy a native code denotes.
    pub fn from_code(code: i32) -> (r: Option<ContextRobustness>)
        ensures
            r == ContextRobustness::spec_from_code(code),
    {
        if code == GLFW_NO_ROBUSTNESS {
            Some(ContextRobustness::NoRobustness)
        } else if code == GLFW_NO_RESET_NOTIFICATION {
            Some(ContextRobustness::NoResetNotification)
        } else if code == GLFW_LOSE_CONTEXT_ON_RESET {
            Some(ContextRobustness::LoseContextOnReset)
        } else {
            None
        }
    }
}

/// Which profile an OpenGL context is created for.
#[derive(Copy, Clone, PartialEq, Eq, Structural, Hash, Debug)]
pub enum OpenGlProfile {
    Any,
    Core,
    Compatibility,
}

impl OpenGlProfile {
    /// The native integer code of this profile.
    pub open spec fn spec_code(self) -> i32 {
        match self {
            OpenGlProfile::Any => GLFW_OPENGL_ANY_PROFILE,
            OpenGlProfile::Core => GLFW_OPENGL_CORE_PROFILE,
            OpenGlProfile::Compatibility => GLFW_OPENGL_COMPAT_PROFILE,
        }
    }

    /// Which profile a native code denotes.
    pub open spec fn spec_from_code(code: i32) -> Option<OpenGlProfile> {
        if code == GLFW_OPENGL_ANY_PROFILE {
            Some(OpenGlProfile::Any)
        } else if code == GLFW_OPENGL_CORE_PROFILE {
            Some(OpenGlProfile::Core)
        } else if code == GLFW_OPENGL_COMPAT_PROFILE {
            Some(OpenGlProfile::Compatibility)
        } else {
            None
        }
    }

    /// The native integer code of this profile.
    pub fn code(self) -> (r: i32)
        ensures
            r == self.spec_code(),
    {
        match self {
            OpenGlProfile::Any => GLFW_OPENGL_ANY_PROFILE,
            OpenGlProfile::Core => GLFW_OPENGL_CORE_PROFILE,
            OpenGlProfile::Compatibility => GLFW_OPENGL_COMPAT_PROFILE,
        }
    }

    /// Which profile a native code denotes.
    pub fn from_code(code: i32) -> (r: Option<OpenGlProfile>)
        ensures
            r == OpenGlProfile::spec_from_code(code),
    {
        if code == GLFW_OPENGL_ANY_PROFILE {
            Some(OpenGlProfile::Any)
        } else if code == GLFW_OPENGL_CORE_PROFILE {
            Some(OpenGlProfile::Core)
        } else if code == GLFW_OPENGL_COMPAT_PROFILE {
            Some(OpenGlProfile::Compatibility)
        } else {
            None
        }
    }
}

/// When a context flushes its work on release.
#[derive(Copy, Clone, PartialEq, Eq, Structural, Hash, Debug)]
pub enum ContextReleaseBehavior {
    Any,
    Flush,
    NoRelease,
}

impl ContextReleaseBehavior {
    /// The native integer code of this behaviour.
    pub open spec fn spec_code(self) -> i32 {
        match self {
            ContextReleaseBehavior::Any => GLFW_ANY_RELEASE_BEHAVIOR,
            ContextReleaseBehavior::Flush => GLFW_RELEASE_BEHAVIOR_FLUSH,
            ContextReleaseBehavior::NoRelease => GLFW_RELEASE_BEHAVIOR_NONE,
        }
    }

    /// The native integer code of this behaviour.
    pub fn code(self) -> (r: i32)
        ensures
            r == self.spec_code(),
    {
        match self {
            ContextReleaseBehavior::Any => GLFW_ANY_RELEASE_BEHAVIOR,
            ContextReleaseBehavior::Flush => GLFW_RELEASE_BEHAVIOR_FLUSH,
            ContextReleaseBehavior::NoRelease => GLFW_RELEASE_BEHAVIOR_NONE,
        }
    }
}

/// Which machinery creates a context.
#[derive(Copy, Clone, PartialEq, Eq, Structural, Hash, Debug)]
pub enum ContextCreationApi {
    Native,
    Egl,
    OsMesa,
}

impl ContextCreationApi {
    /// The native integer code of this machinery.
    pub open spec fn spec_code(self) -> i32 {
        match self {
            ContextCreationApi::Native => GLFW_NATIVE_CONTEXT_API,
            ContextCreationApi::Egl => GLFW_EGL_CONTEXT_API,
            ContextCreationApi::OsMesa => GLFW_OSMESA_CONTEXT_API,
        }
    }

    /// Which machinery a native code denotes.
    pub open spec fn spec_from_code(code: i32) -> Option<ContextCreationApi> {
        if code == GLFW_NATIVE_CONTEXT_API {
            Some(ContextCreationApi::Native)
        } else if code == GLFW_EGL_CONTEXT_API {
            Some(ContextCreationApi::Egl)
        } else if code == GLFW_OSMESA_CONTEXT_API {
            Some(ContextCreationApi::OsMesa)
        } else {
            None
        }
    }

    /// The native integer code of this machinery.
    pub fn code(self) -> (r: i32)
        ensures
            r == self.spec_code(),
    {
        match self {
            ContextCreationApi::Native => GLFW_NATIVE_CONTEXT_API,
            ContextCreationApi::Egl => GLFW_EGL_CONTEXT_API,
            ContextCreationApi::OsMesa => GLFW_OSMESA_CONTEXT_API,
        }
    }

    /// Which machinery a native code denotes.
    pub fn from_code(code: i32) -> (r: Option<ContextCreationApi>)
        ensures
            r == ContextCreationApi::spec_from_code(code),
    {
        if code == GLFW_NATIVE_CONTEXT_API {
            Some(ContextCreationApi::Native)
        } else if code == GLFW_EGL_CONTEXT_API {
            Some(ContextCreationApi::Egl)
        } else if code == GLFW_OSMESA_CONTEXT_API {
            Some(ContextCreationApi::OsMesa)
        } else {
            None
        }
    }
}

/// Modifier keys held while an input event fired, packed as the native
/// library packs them.
#[derive(Copy, Clone, PartialEq, Eq, Structural, Hash, Debug)]
pub struct Modifiers {
    pub bits: u32,
}

impl Modifiers {
    /// All modifier bits the native library defines.
    pub open spec fn spec_mask() -> u32 {
        0x3f
    }

    /// No modifiers held.
    pub fn empty() -> (r: Modifiers)
        ensures
            r.bits == 0,
    {
        Modifiers { bits: 0 }
    }

    /// Validates a native modifier word: every bit must be one the native
    /// library defines.
    pub fn from_bits(bits: i32) -> (r: Option<Modifiers>)
        ensures
            (r is Some) == (0 <= bits < 64),
            r matches Some(m) ==> m.bits == bits as u32,
    {
        if 0 <= bits && bits < 64 {
            Some(Modifiers { bits: bits as u32 })
        } else {
            None
        }
    }

    /// A shift key was held.
    pub fn shift(&self) -> (r: bool)
        ensures
            r == (self.bits & 0x01 != 0),
    {
        self.bits & 0x01 != 0
    }

    /// A control key was held.
    pub fn control(&self) -> (r: bool)
        ensures
            r == (self.bits & 0x02 != 0),
    {
        self.bits & 0x02 != 0
    }

    /// An alt key was held.
    pub fn alt(&self) -> (r: bool)
        ensures
            r == (self.bits & 0x04 != 0),
    {
        self.bits & 0x04 != 0
    }

    /// A super key was held.
    pub fn super_key(&self) -> (r: bool)
        ensures
            r == (self.bits & 0x08 != 0),
    {
        self.bits & 0x08 != 0
    }

    /// Caps lock was enabled.
    pub fn caps_lock(&self) -> (r: bool)
        ensures
            r == (self.bits & 0x10 != 0),
    {
        self.bits & 0x10 != 0
    }

    /// Num lock was enabled.
    pub fn num_lock(&self) -> (r: bool)
        ensures
            r == (self.bits & 0x20 != 0),
    {
        self.bits & 0x20 != 0
    }
}

/// The position of a joystick hat, packed as the native library packs it.
#[derive(Copy, Clone, PartialEq, Eq, Structural, Hash, Debug)]
pub struct JoystickHatState {
    pub bits: u8,
}

impl JoystickHatState {
    /// The bit patterns the native library can report: centered, the four
    /// directions, and the four diagonal combinations.
    pub open spec fn spec_is_valid(bits: u8) -> bool {
        ||| bits == 0
        ||| bits == 1
        ||| bits == 2
        ||| bits == 3
        ||| bits == 4
        ||| bits == 6
        ||| bits == 8
        ||| bits == 9
        ||| bits == 12
    }

    /// Validates a native hat word.
    pub fn from_bits(bits: u8) -> (r: Option<JoystickHatState>)
        ensures
            (r is Some) == JoystickHatState::spec_is_valid(bits),
            r matches Some(h) ==> h.bits == bits,
    {
        if bits == 0 || bits == 1 || bits == 2 || bits == 3 || bits == 4 || bits == 6 || bits == 8
            || bits == 9 || bits == 12 {
            Some(JoystickHatState { bits })
        } else {
            None
        }
    }

    /// The hat rests in its center position.
    pub fn centered(&self) -> (r: bool)
        ensures
            r == (self.bits == 0),
    {
        self.bits == 0
    }

    /// The hat points up (possibly diagonally).
    pub fn up(&self) -> (r: bool)
        ensures
            r == (self.bits & 1 != 0),
    {
        self.bits & 1 != 0
    }

    /// The hat points right (possibly diagonally).
    pub fn right(&self) -> (r: bool)
        ensures
            r == (self.bits & 2 != 0),
    {
        self.bits & 2 != 0
    }

    /// The hat points down (possibly diagonally).
    pub fn down(&self) -> (r: bool)
        ensures
            r == (self.bits & 4 != 0),
    {
        self.bits & 4 != 0
    }

    /// The hat points left (possibly diagonally).
    pub fn left(&self) -> (r: bool)
        ensures
            r == (self.bits & 8 != 0),
    {
        self.bits & 8 != 0
    }
}

/// The boolean window attributes a window can be queried for.
#[derive(Copy, Clone, PartialEq, Eq, Structural, Hash, Debug)]
pub enum WindowAttribute {
    Focused,
    Iconified,
    Maximized,
    Hovered,
    Visible,
    Resizable,
    Decorated,
    AutoIconify,
    Floating,
    TransparentFramebuffer,
    OpenGlForwardCompat,
    OpenGlDebugContext,
}

impl WindowAttribute {
    /// The native integer code of this attribute.
    pub open spec fn spec_code(self) -> i32 {
        match self {
            WindowAttribute::Focused => GLFW_FOCUSED,
            WindowAttribute::Iconified => GLFW_ICONIFIED,
            WindowAttribute::Maximized => GLFW_MAXIMIZED,
            WindowAttribute::Hovered => GLFW_HOVERED,
            WindowAttribute::Visible => GLFW_VISIBLE,
            WindowAttribute::Resizable => GLFW_RESIZABLE,
            WindowAttribute::Decorated => GLFW_DECORATED,
            WindowAttribute::AutoIconify => GLFW_AUTO_ICONIFY,
            WindowAttribute::Floating => GLFW_FLOATING,
            WindowAttribute::TransparentFramebuffer => GLFW_TRANSPARENT_FRAMEBUFFER,
            WindowAttribute::OpenGlForwardCompat => GLFW_OPENGL_FORWARD_COMPAT,
            WindowAttribute::OpenGlDebugContext => GLFW_OPENGL_DEBUG_CONTEXT,
        }
    }

    /// The native integer code of this attribute.
    pub fn code(self) -> (r: i32)
        ensures
            r == self.spec_code(),
    {
        match self {
            WindowAttribute::Focused => GLFW_FOCUSED,
            WindowAttribute::Iconified => GLFW_ICONIFIED,
            WindowAttribute::Maximized => GLFW_MAXIMIZED,
            WindowAttribute::Hovered => GLFW_HOVERED,
            WindowAttribute::Visible => GLFW_VISIBLE,
            WindowAttribute::Resizable => GLFW_RESIZABLE,
            WindowAttribute::Decorated => GLFW_DECORATED,
            WindowAttribute::AutoIconify => GLFW_AUTO_ICONIFY,
            WindowAttribute::Floating => GLFW_FLOATING,
            WindowAttribute::TransparentFramebuffer => GLFW_TRANSPARENT_FRAMEBUFFER,
            WindowAttribute::OpenGlForwardCompat => GLFW_OPENGL_FORWARD_COMPAT,
            WindowAttribute::OpenGlDebugContext => GLFW_OPENGL_DEBUG_CONTEXT,
        }
    }
}

/// The window attributes that can be changed after creation.
#[derive(Copy, Clone, PartialEq, Eq, Structural, Hash, Debug)]
pub enum SetWindowAttribute {
    Decorated(bool),
    Resizable(bool),
    Floating(bool),
    AutoIconify(bool),
}

impl SetWindowAttribute {
    /// The pair the native attribute-setting call takes for this request.
    pub open spec fn spec_attrib_and_value(self) -> (i32, i32) {
        match self {
            SetWindowAttribute::Decorated(v) => (GLFW_DECORATED, spec_bool_to_cint(v)),
            SetWindowAttribute::Resizable(v) => (GLFW_RESIZABLE, spec_bool_to_cint(v)),
            SetWindowAttribute::Floating(v) => (GLFW_FLOATING, spec_bool_to_cint(v)),
            SetWindowAttribute::AutoIconify(v) => (GLFW_AUTO_ICONIFY, spec_bool_to_cint(v)),
        }
    }

    /// The pair the native attribute-setting call takes for this request.
    pub fn attrib_and_value(self) -> (r: (i32, i32))
        ensures
            r == self.spec_attrib_and_value(),
    {
        match self {
            SetWindowAttribute::Decorated(v) => (GLFW_DECORATED, bool_to_cint(v)),
            SetWindowAttribute::Resizable(v) => (GLFW_RESIZABLE, bool_to_cint(v)),
            SetWindowAttribute::Floating(v) => (GLFW_FLOATING, bool_to_cint(v)),
            SetWindowAttribute::AutoIconify(v) => (GLFW_AUTO_ICONIFY, bool_to_cint(v)),
        }
    }
}

/// The boolean input modes a window can be queried for.
#[derive(Copy, Clone, PartialEq, Eq, Structural, Hash, Debug)]
pub enum InputMode {
    StickyKeys,
    StickyMouseButtons,
    LockKeyMods,
    RawMouseMotion,
}

impl InputMode {
    /// The native integer code of this mode.
    pub open spec fn spec_code(self) -> i32 {
        match self {
            InputMode::StickyKeys => GLFW_STICKY_KEYS,
            InputMode::StickyMouseButtons => GLFW_STICKY_MOUSE_BUTTONS,
            InputMode::LockKeyMods => GLFW_LOCK_KEY_MODS,
            InputMode::RawMouseMotion => GLFW_RAW_MOUSE_MOTION,
        }
    }

    /// The native integer code of this mode.
    pub fn code(self) -> (r: i32)
        ensures
            r == self.spec_code(),
    {
        match self {
            InputMode::StickyKeys => GLFW_STICKY_KEYS,
            InputMode::StickyMouseButtons => GLFW_STICKY_MOUSE_BUTTONS,
            InputMode::LockKeyMods => GLFW_LOCK_KEY_MODS,
            InputMode::RawMouseMotion => GLFW_RAW_MOUSE_MOTION,
        }
    }
}

/// The input modes that can be set on a window.
#[derive(Copy, Clone, PartialEq, Eq, Structural, Hash, Debug)]
pub enum SetInputMode {
    Cursor(CursorMode),
    StickyKeys(bool),
    StickyMouseButtons(bool),
    LockKeyMods(bool),
    RawMouseMotion(bool),
}

impl SetInputMode {
    /// The pair the native input-mode call takes for this request.
    pub open spec fn spec_mode_and_value(self) -> (i32, i32) {
        match self {
            SetInputMode::Cursor(c) => (GLFW_CURSOR, c.spec_code()),
            SetInputMode::StickyKeys(v) => (GLFW_STICKY_KEYS, spec_bool_to_cint(v)),
            SetInputMode::StickyMouseButtons(v) => (
                GLFW_STICKY_MOUSE_BUTTONS,
                spec_bool_to_cint(v),
            ),
            SetInputMode::LockKeyMods(v) => (GLFW_LOCK_KEY_MODS, spec_bool_to_cint(v)),
            SetInputMode::RawMouseMotion(v) => (GLFW_RAW_MOUSE_MOTION, spec_bool_to_cint(v)),
        }
    }

    /// The pair the native input-mode call takes for this request.
    pub fn mode_and_value(self) -> (r: (i32, i32))
        ensures
            r == self.spec_mode_and_value(),
    {
        match self {
            SetInputMode::Cursor(c) => (GLFW_CURSOR, c.code()),
            SetInputMode::StickyKeys(v) => (GLFW_STICKY_KEYS, bool_to_cint(v)),
            SetInputMode::StickyMouseButtons(v) => (GLFW_STICKY_MOUSE_BUTTONS, bool_to_cint(v)),
            SetInputMode::LockKeyMods(v) => (GLFW_LOCK_KEY_MODS, bool_to_cint(v)),
            SetInputMode::RawMouseMotion(v) => (GLFW_RAW_MOUSE_MOTION, bool_to_cint(v)),
        }
    }
}

/// Library initialization hints.
#[derive(Copy, Clone, PartialEq, Eq, Structural, Hash, Debug)]
pub struct InitHints {
    pub cocoa_chdir_resources: bool,
    pub cocoa_menubar: bool,
    pub joystick_hat_buttons: bool,
}

impl Default for InitHints {
    /// Every initialization hint defaults to enabled.
    fn default() -> (r: InitHints)
        ensures
            r.cocoa_chdir_resources,
            r.cocoa_menubar,
            r.joystick_hat_buttons,
    {
        InitHints { cocoa_chdir_resources: true, cocoa_menubar: true, joystick_hat_buttons: true }
    }
}

impl InitHints {
    /// The pairs the native init-hint call takes, in the order the session
    /// applies them.
    pub open spec fn spec_hint_codes(self) -> Seq<(i32, i32)> {
        seq![
            (GLFW_COCOA_CHDIR_RESOURCES, spec_bool_to_cint(self.cocoa_chdir_resources)),
            (GLFW_COCOA_MENUBAR, spec_bool_to_cint(self.cocoa_menubar)),
            (GLFW_JOYSTICK_HAT_BUTTONS, spec_bool_to_cint(self.joystick_hat_buttons)),
        ]
    }

    /// The pairs the native init-hint call takes, in the order the session
    /// applies them.
    pub fn hint_codes(&self) -> (r: Vec<(i32, i32)>)
        ensures
            r@ == self.spec_hint_codes(),
    {
        let mut r: Vec<(i32, i32)> = Vec::new();
        r.push((GLFW_COCOA_CHDIR_RESOURCES, bool_to_cint(self.cocoa_chdir_resources)));
        r.push((GLFW_COCOA_MENUBAR, bool_to_cint(self.cocoa_menubar)));
        r.push((GLFW_JOYSTICK_HAT_BUTTONS, bool_to_cint(self.joystick_hat_buttons)));
        proof {
            assert(r@ =~= self.spec_hint_codes());
        }
        r
    }
}

/// Window creation hints.
///
/// Some hints are hard constraints: if the system cannot satisfy them,
/// window creation fails.  The rest are matched as closely as possible and
/// the created window may differ from the request; the attribute queries on
/// the created window report what was actually obtained.
#[derive(Clone, Debug)]
pub struct WindowHints {
    pub resizable: bool,
    pub visible: bool,
    pub decorated: bool,
    pub focused: bool,
    pub auto_iconify: bool,
    pub floating: bool,
    pub maximized: bool,
    pub center_cursor: bool,
    pub transparent_framebuffer: bool,
    pub red_bits: Option<i32>,
    pub green_bits: Option<i32>,
    pub blue_bits: Option<i32>,
    pub alpha_bits: Option<i32>,
    pub depth_bits: Option<i32>,
    pub stencil_bits: Option<i32>,
    pub accum_red_bits: Option<i32>,
    pub accum_green_bits: Option<i32>,
    pub accum_blue_bits: Option<i32>,
    pub accum_alpha_bits: Option<i32>,
    pub auxiliary_buffers: Option<i32>,
    pub samples: Option<i32>,
    pub refresh_rate: Option<i32>,
    pub stereo: bool,
    pub srgb_capable: bool,
    pub double_buffer: bool,
    pub client_api: ClientApi,
    pub context_creation_api: ContextCreationApi,
    pub context_version_major: i32,
    pub context_version_minor: i32,
    pub context_robustness: ContextRobustness,
    pub context_release_behavior: ContextReleaseBehavior,
    pub opengl_forward_compatible: bool,
    pub opengl_debug_context: bool,
    pub opengl_profile: OpenGlProfile,
    pub context_no_error: bool,
    pub cocoa_retina_framebuffer: bool,
    pub cocoa_frame_name: String,
    pub cocoa_graphics_switching: bool,
    pub x11_class_name: String,
    pub x11_instance_name: String,
}

impl Default for WindowHints {
    /// The native library's documented defaults.
    fn default() -> (r: WindowHints)
        ensures
            r.resizable,
            r.visible,
            r.decorated,
            r.focused,
            r.auto_iconify,
            !r.floating,
            !r.maximized,
            r.center_cursor,
            !r.transparent_framebuffer,
            r.red_bits == Some(8i32),
            r.green_bits == Some(8i32),
            r.blue_bits == Some(8i32),
            r.alpha_bits == Some(8i32),
            r.depth_bits == Some(24i32),
            r.stencil_bits == Some(8i32),
            r.accum_red_bits == Some(0i32),
            r.accum_green_bits == Some(0i32),
            r.accum_blue_bits == Some(0i32),
            r.accum_alpha_bits == Some(0i32),
            r.auxiliary_buffers == Some(0i32),
            r.samples == Some(0i32),
            r.refresh_rate == None::<i32>,
            !r.stereo,
            !r.srgb_capable,
            r.double_buffer,
            r.client_api == ClientApi::OpenGl,
            r.context_creation_api == ContextCreationApi::Native,
            r.context_version_major == 1,
            r.context_version_minor == 0,
            r.context_robustness == ContextRobustness::NoRobustness,
            r.context_release_behavior == ContextReleaseBehavior::Any,
            !r.opengl_forward_compatible,
            !r.opengl_debug_context,
            r.opengl_profile == OpenGlProfile::Any,
            !r.context_no_error,
            r.cocoa_retina_framebuffer,
            r.cocoa_frame_name@ == Seq::<char>::empty(),
            !r.cocoa_graphics_switching,
            r.x11_class_name@ == Seq::<char>::empty(),
            r.x11_instance_name@ == Seq::<char>::empty(),
    {
        WindowHints {
            resizable: true,
            visible: true,
            decorated: true,
            focused: true,
            auto_iconify: true,
            floating: false,
            maximized: false,
            center_cursor: true,
            transparent_framebuffer: false,
            red_bits: Some(8),
            green_bits: Some(8),
            blue_bits: Some(8),
            alpha_bits: Some(8),
            depth_bits: Some(24),
            stencil_bits: Some(8),
            accum_red_bits: Some(0),
            accum_green_bits: Some(0),
            accum_blue_bits: Some(0),
            accum_alpha_bits: Some(0),
            auxiliary_buffers: Some(0),
            samples: Some(0),
            refresh_rate: None,
            stereo: false,
            srgb_capable: false,
            double_buffer: true,
            client_api: ClientApi::OpenGl,
            context_creation_api: ContextCreationApi::Native,
            context_version_major: 1,
            context_version_minor: 0,
            context_robustness: ContextRobustness::NoRobustness,
            context_release_behavior: ContextReleaseBehavior::Any,
            opengl_forward_compatible: false,
            opengl_debug_context: false,
            opengl_profile: OpenGlProfile::Any,
            context_no_error: false,
            cocoa_retina_framebuffer: true,
            cocoa_frame_name: String::new(),
            cocoa_graphics_switching: false,
            x11_class_name: String::new(),
            x11_instance_name: String::new(),
        }
    }
}

impl WindowHints {
    /// The window-style boolean hints, in application order.
    pub open spec fn spec_style_hint_codes(self) -> Seq<(i32, i32)> {
        seq![
            (GLFW_RESIZABLE, spec_bool_to_cint(self.resizable)),
            (GLFW_VISIBLE, spec_bool_to_cint(self.visible)),
            (GLFW_DECORATED, spec_bool_to_cint(self.decorated)),
            (GLFW_FOCUSED, spec_bool_to_cint(self.focused)),
            (GLFW_AUTO_ICONIFY, spec_bool_to_cint(self.auto_iconify)),
            (GLFW_FLOATING, spec_bool_to_cint(self.floating)),
            (GLFW_MAXIMIZED, spec_bool_to_cint(self.maximized)),
            (GLFW_CENTER_CURSOR, spec_bool_to_cint(self.center_cursor)),
            (GLFW_STEREO, spec_bool_to_cint(self.stereo)),
            (GLFW_SRGB_CAPABLE, spec_bool_to_cint(self.srgb_capable)),
            (GLFW_DOUBLEBUFFER, spec_bool_to_cint(self.double_buffer)),
            (GLFW_TRANSPARENT_FRAMEBUFFER, spec_bool_to_cint(self.transparent_framebuffer)),
        ]
    }

    /// The framebuffer bit-depth and buffer-count hints, in application
    /// order.
    pub open spec fn spec_framebuffer_hint_codes(self) -> Seq<(i32, i32)> {
        seq![
            (GLFW_RED_BITS, spec_or_dont_care(self.red_bits)),
            (GLFW_GREEN_BITS, spec_or_dont_care(self.green_bits)),
            (GLFW_BLUE_BITS, spec_or_dont_care(self.blue_bits)),
            (GLFW_ALPHA_BITS, spec_or_dont_care(self.alpha_bits)),
            (GLFW_DEPTH_BITS, spec_or_dont_care(self.depth_bits)),
            (GLFW_STENCIL_BITS, spec_or_dont_care(self.stencil_bits)),
            (GLFW_ACCUM_RED_BITS, spec_or_dont_care(self.accum_red_bits)),
            (GLFW_ACCUM_GREEN_BITS, spec_or_dont_care(self.accum_green_bits)),
            (GLFW_ACCUM_BLUE_BITS, spec_or_dont_care(self.accum_blue_bits)),
            (GLFW_ACCUM_ALPHA_BITS, spec_or_dont_care(self.accum_alpha_bits)),
            (GLFW_AUX_BUFFERS, spec_or_dont_care(self.auxiliary_buffers)),
            (GLFW_SAMPLES, spec_or_dont_care(self.samples)),
            (GLFW_REFRESH_RATE, spec_or_dont_care(self.refresh_rate)),
        ]
    }

    /// The context-creation hints, in application order.
    pub open spec fn spec_context_hint_codes(self) -> Seq<(i32, i32)> {
        seq![
            (GLFW_CLIENT_API, self.client_api.spec_code()),
            (GLFW_CONTEXT_CREATION_API, self.context_creation_api.spec_code()),
            (GLFW_CONTEXT_ROBUSTNESS, self.context_robustness.spec_code()),
            (GLFW_OPENGL_PROFILE, self.opengl_profile.spec_code()),
            (GLFW_CONTEXT_RELEASE_BEHAVIOR, self.context_release_behavior.spec_code()),
            (GLFW_CONTEXT_VERSION_MAJOR, self.context_version_major),
            (GLFW_CONTEXT_VERSION_MINOR, self.context_version_minor),
            (GLFW_OPENGL_FORWARD_COMPAT, spec_bool_to_cint(self.opengl_forward_compatible)),
            (GLFW_OPENGL_DEBUG_CONTEXT, spec_bool_to_cint(self.opengl_debug_context)),
            (GLFW_CONTEXT_NO_ERROR, spec_bool_to_cint(self.context_no_error)),
            (GLFW_COCOA_RETINA_FRAMEBUFFER, spec_bool_to_cint(self.cocoa_retina_framebuffer)),
            (GLFW_COCOA_GRAPHICS_SWITCHING, spec_bool_to_cint(self.cocoa_graphics_switching)),
        ]
    }

    /// The integer hint pairs the native hint call takes, in the order the
    /// session applies them before creating a window.  The three string
    /// hints are applied separately.
    pub open spec fn spec_hint_codes(self) -> Seq<(i32, i32)> {
        self.spec_style_hint_codes() + self.spec_framebuffer_hint_codes()
            + self.spec_context_hint_codes()
    }

    /// The window-style boolean hints, in application order.
    #[verifier::rlimit(50)]
    fn style_hint_codes(&self) -> (r: Vec<(i32, i32)>)
        ensures
            r@ == self.spec_style_hint_codes(),
    {
        let mut r: Vec<(i32, i32)> = Vec::new();
        r.push((GLFW_RESIZABLE, bool_to_cint(self.resizable)));
        r.push((GLFW_VISIBLE, bool_to_cint(self.visible)));
        r.push((GLFW_DECORATED, bool_to_cint(self.decorated)));
        r.push((GLFW_FOCUSED, bool_to_cint(self.focused)));
        r.push((GLFW_AUTO_ICONIFY, bool_to_cint(self.auto_iconify)));
        r.push((GLFW_FLOATING, bool_to_cint(self.floating)));
        r.push((GLFW_MAXIMIZED, bool_to_cint(self.maximized)));
        r.push((GLFW_CENTER_CURSOR, bool_to_cint(self.center_cursor)));
        r.push((GLFW_STEREO, bool_to_cint(self.stereo)));
        r.push((GLFW_SRGB_CAPABLE, bool_to_cint(self.srgb_capable)));
        r.push((GLFW_DOUBLEBUFFER, bool_to_cint(self.double_buffer)));
        r.push((GLFW_TRANSPARENT_FRAMEBUFFER, bool_to_cint(self.transparent_framebuffer)));
        proof {
            assert(r@ =~= self.spec_style_hint_codes());
        }
        r
    }

    /// The framebuffer bit-depth and buffer-count hints, in application
    /// order.
    #[verifier::rlimit(50)]
    fn framebuffer_hint_codes(&self) -> (r: Vec<(i32, i32)>)
        ensures
            r@ == self.spec_framebuffer_hint_codes(),
    {
        let mut r: Vec<(i32, i32)> = Vec::new();
        r.push((GLFW_RED_BITS, or_dont_care(self.red_bits)));
        r.push((GLFW_GREEN_BITS, or_dont_care(self.green_bits)));
        r.push((GLFW_BLUE_BITS, or_dont_care(self.blue_bits)));
        r.push((GLFW_ALPHA_BITS, or_dont_care(self.alpha_bits)));
        r.push((GLFW_DEPTH_BITS, or_dont_care(self.depth_bits)));
        r.push((GLFW_STENCIL_BITS, or_dont_care(self.stencil_bits)));
        r.push((GLFW_ACCUM_RED_BITS, or_dont_care(self.accum_red_bits)));
        r.push((GLFW_ACCUM_GREEN_BITS, or_dont_care(self.accum_green_bits)));
        r.push((GLFW_ACCUM_BLUE_BITS, or_dont_care(self.accum_blue_bits)));
        r.push((GLFW_ACCUM_ALPHA_BITS, or_dont_care(self.accum_alpha_bits)));
        r.push((GLFW_AUX_BUFFERS, or_dont_care(self.auxiliary_buffers)));
        r.push((GLFW_SAMPLES, or_dont_care(self.samples)));
        r.push((GLFW_REFRESH_RATE, or_dont_care(self.refresh_rate)));
        proof {
            assert(r@ =~= self.spec_framebuffer_hint_codes());
        }
        r
    }

    /// The context-creation hints, in application order.
    #[verifier::rlimit(50)]
    fn context_hint_codes(&self) -> (r: Vec<(i32, i32)>)
        ensures
            r@ == self.spec_context_hint_codes(),
    {
        let mut r: Vec<(i32, i32)> = Vec::new();
        r.push((GLFW_CLIENT_API, self.client_api.code()));
        r.push((GLFW_CONTEXT_CREATION_API, self.context_creation_api.code()));
        r.push((GLFW_CONTEXT_ROBUSTNESS, self.context_robustness.code()));
        r.push((GLFW_OPENGL_PROFILE, self.opengl_profile.code()));
        r.push((GLFW_CONTEXT_RELEASE_BEHAVIOR, self.context_release_behavior.code()));
        r.push((GLFW_CONTEXT_VERSION_MAJOR, self.context_version_major));
        r.push((GLFW_CONTEXT_VERSION_MINOR, self.context_version_minor));
        r.push((GLFW_OPENGL_FORWARD_COMPAT, bool_to_cint(self.opengl_forward_compatible)));
        r.push((GLFW_OPENGL_DEBUG_CONTEXT, bool_to_cint(self.opengl_debug_context)));
        r.push((GLFW_CONTEXT_NO_ERROR, bool_to_cint(self.context_no_error)));
        r.push((GLFW_COCOA_RETINA_FRAMEBUFFER, bool_to_cint(self.cocoa_retina_framebuffer)));
        r.push((GLFW_COCOA_GRAPHICS_SWITCHING, bool_to_cint(self.cocoa_graphics_switching)));
        proof {
            assert(r@ =~= self.spec_context_hint_codes());
        }
        r
    }

    /// The integer hint pairs the native hint call takes, in the order the
    /// session applies them before creating a window.
    pub fn hint_codes(&self) -> (r: Vec<(i32, i32)>)
        ensures
            r@ == self.spec_hint_codes(),
    {
        let mut r = self.style_hint_codes();
        let mut framebuffer = self.framebuffer_hint_codes();
        let mut context = self.context_hint_codes();
        r.append(&mut framebuffer);
        r.append(&mut context);
        r
    }
}

} // verus!
