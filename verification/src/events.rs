//! The typed event model, and how raw native callback payloads turn into
//! typed events.
//!
//! The native library reports every event as a tuple of integers (plus raw
//! strings, which the runner copies before they die).  The functions here
//! own the translation rules: the press/release/repeat fan-out, the
//! boolean fan-outs, modifier validation, the unknown-key degradation, and
//! code-point validation.  A payload that violates the native library's own
//! documented conventions is a wrapper-internal inconsistency: translation
//! reports a [`DispatchFault`] naming the category, and the runner aborts
//! rather than continue past it.
//!
//! Cursor coordinates, scroll offsets and content scales are carried as the
//! IEEE-754 bit patterns of the native floating-point values; the runner
//! converts at the boundary.

use vstd::prelude::*;

use crate::codes::{GLFW_PRESS, GLFW_RELEASE};
use crate::enums::Joystick;
use crate::enums::Key;
use crate::enums::KeyCode;
use crate::enums::Modifiers;
use crate::enums::MouseButton;
use crate::monitor::DisconnectedMonitor;
use crate::monitor::Monitor;
use crate::window::SharedWindow;

verus! {

/// A typed event, as a registered handler receives it.  Window events carry
/// the non-owning reference to the window they concern.
#[derive(Clone, PartialEq, Debug)]
pub enum Event {
    MonitorConnected(Monitor),
    MonitorDisconnected(DisconnectedMonitor),
    JoystickConnected(Joystick),
    JoystickDisconnected(Joystick),
    WindowPosition { win: SharedWindow, x: i32, y: i32 },
    WindowResize { win: SharedWindow, width: i32, height: i32 },
    WindowCloseRequested(SharedWindow),
    WindowRefresh(SharedWindow),
    WindowFocused(SharedWindow),
    WindowDefocused(SharedWindow),
    WindowIconified(SharedWindow),
    WindowDeiconified(SharedWindow),
    WindowMaximized(SharedWindow),
    WindowDemaximized(SharedWindow),
    FramebufferSizeChanged { win: SharedWindow, width: i32, height: i32 },
    /// Scales are the bit patterns of the native single-precision values.
    ContentScaleChanged { win: SharedWindow, x_scale_bits: u32, y_scale_bits: u32 },
    MouseButtonDown { win: SharedWindow, button: MouseButton, modifiers: Modifiers },
    MouseButtonUp { win: SharedWindow, button: MouseButton, modifiers: Modifiers },
    /// Coordinates are the bit patterns of the native double-precision
    /// values.
    CursorMoved { win: SharedWindow, x_bits: u64, y_bits: u64 },
    CursorEntered(SharedWindow),
    CursorExited(SharedWindow),
    /// Offsets are the bit patterns of the native double-precision values.
    Scroll { win: SharedWindow, x_offset_bits: u64, y_offset_bits: u64 },
    KeyDown { win: SharedWindow, key: Key, modifiers: Modifiers },
    KeyUp { win: SharedWindow, key: Key, modifiers: Modifiers },
    KeyRepeat { win: SharedWindow, key: Key, modifiers: Modifiers },
    /// The Unicode scalar value typed.
    CharTyped(SharedWindow, u32),
    CharModsTyped { win: SharedWindow, code_point: u32, modifiers: Modifiers },
    FileDrop(SharedWindow, Vec<String>),
}

/// A raw native payload that violates the conventions the native library
/// documents for its callbacks.  Each variant names the offending category
/// and carries the value; the runner turns one into an abort with that
/// diagnostic, since continuing past a broken native invariant is unsafe.
#[derive(Clone, Copy, PartialEq, Eq, Structural, Debug)]
pub enum DispatchFault {
    UnknownMonitorEvent(i32),
    UnknownJoystickEvent(i32),
    UnknownJoystick(i32),
    UnknownMouseButton(i32),
    UnknownKeyAction(i32),
    InvalidModifiers(i32),
    InvalidCodePoint(u32),
}

/// Whether a native character payload is a Unicode scalar value.
pub open spec fn spec_is_scalar_value(code_point: u32) -> bool {
    code_point < 0xD800 || (0xE000 <= code_point && code_point <= 0x10FFFF)
}

/// Whether a native character payload is a Unicode scalar value.
pub fn is_scalar_value(code_point: u32) -> (r: bool)
    ensures
        r == spec_is_scalar_value(code_point),
{
    code_point < 0xD800 || (0xE000 <= code_point && code_point <= 0x10FFFF)
}

/// Translates the focus callback's boolean: nonzero fans out to a focused
/// event, zero to a defocused one.
pub fn translate_focus(win: SharedWindow, focused: i32) -> (r: Event)
    ensures
        r == (if focused != 0 {
            Event::WindowFocused(win)
        } else {
            Event::WindowDefocused(win)
        }),
{
    if focused != 0 {
        Event::WindowFocused(win)
    } else {
        Event::WindowDefocused(win)
    }
}

/// Translates the iconify callback's boolean.
pub fn translate_iconify(win: SharedWindow, iconified: i32) -> (r: Event)
    ensures
        r == (if iconified != 0 {
            Event::WindowIconified(win)
        } else {
            Event::WindowDeiconified(win)
        }),
{
    if iconified != 0 {
        Event::WindowIconified(win)
    } else {
        Event::WindowDeiconified(win)
    }
}

/// Translates the maximize callback's boolean.
pub fn translate_maximize(win: SharedWindow, maximized: i32) -> (r: Event)
    ensures
        r == (if maximized != 0 {
            Event::WindowMaximized(win)
        } else {
            Event::WindowDemaximized(win)
        }),
{
    if maximized != 0 {
        Event::WindowMaximized(win)
    } else {
        Event::WindowDemaximized(win)
    }
}

/// Translates the cursor-enter callback's boolean.
pub fn translate_cursor_enter(win: SharedWindow, entered: i32) -> (r: Event)
    ensures
        r == (if entered != 0 {
            Event::CursorEntered(win)
        } else {
            Event::CursorExited(win)
        }),
{
    if entered != 0 {
        Event::CursorEntered(win)
    } else {
        Event::CursorExited(win)
    }
}

/// What the mouse-button trampoline delivers for a raw payload: the button
/// must be one the native library defines and the modifier word must be
/// well-formed; the action code then fans out to a distinct button-down or
/// button-up event, never an ambiguous one.
pub open spec fn spec_translate_mouse_button(
    win: SharedWindow,
    button: i32,
    action: i32,
    mods: i32,
) -> Result<Event, DispatchFault> {
    match MouseButton::spec_from_code(button) {
        None => Err(DispatchFault::UnknownMouseButton(button)),
        Some(b) => if !(0 <= mods < 64) {
            Err(DispatchFault::InvalidModifiers(mods))
        } else if action != 0 {
            Ok(
                Event::MouseButtonDown {
                    win,
                    button: b,
                    modifiers: Modifiers { bits: mods as u32 },
                },
            )
        } else {
            Ok(Event::MouseButtonUp { win, button: b, modifiers: Modifiers { bits: mods as u32 } })
        },
    }
}

/// Translates the mouse-button callback's raw payload.
pub fn translate_mouse_button(win: SharedWindow, button: i32, action: i32, mods: i32) -> (r: Result<
    Event,
    DispatchFault,
>)
    ensures
        r == spec_translate_mouse_button(win, button, action, mods),
{
    match MouseButton::from_code(button) {
        None => Err(DispatchFault::UnknownMouseButton(button)),
        Some(b) => match Modifiers::from_bits(mods) {
            None => Err(DispatchFault::InvalidModifiers(mods)),
            Some(m) => if action != 0 {
                Ok(Event::MouseButtonDown { win, button: b, modifiers: m })
            } else {
                Ok(Event::MouseButtonUp { win, button: b, modifiers: m })
            },
        },
    }
}

/// Law: event fan-out is unambiguous.  For every button the native library
/// defines and every well-formed modifier word, the raw action sequence
/// press then release translates to exactly a button-down event followed by
/// a button-up event for that button, never a single merged event.
pub proof fn lemma_mouse_button_fan_out(win: SharedWindow, button: MouseButton, mods: i32)
    requires
        0 <= mods < 64,
    ensures
        spec_translate_mouse_button(win, button.spec_code(), GLFW_PRESS, mods) == Ok::<
            Event,
            DispatchFault,
        >((Event::MouseButtonDown { win, button, modifiers: Modifiers { bits: mods as u32 } })),
        spec_translate_mouse_button(win, button.spec_code(), GLFW_RELEASE, mods) == Ok::<
            Event,
            DispatchFault,
        >((Event::MouseButtonUp { win, button, modifiers: Modifiers { bits: mods as u32 } })),
{
    assert(MouseButton::spec_from_code(button.spec_code()) == Some(button)) by {
        match button {
            MouseButton::Left => {},
            MouseButton::Right => {},
            MouseButton::Middle => {},
            MouseButton::Four => {},
            MouseButton::Five => {},
            MouseButton::Six => {},
            MouseButton::Seven => {},
            MouseButton::Eight => {},
        }
    }
}

/// Translates the key callback's raw payload.
///
/// A key code absent from the static table degrades to an unnamed key
/// carrying the raw scancode — platform-specific scancodes must not fail.
/// The action code fans out to distinct down, up and repeat events; an
/// action outside the three the native library documents, or an ill-formed
/// modifier word, is a dispatch fault.
pub fn translate_key(win: SharedWindow, key: i32, scancode: i32, action: i32, mods: i32) -> (r:
    Result<Event, DispatchFault>)
    ensures
        match crate::enums::Action::spec_from_code(action) {
            None => r == Err::<Event, DispatchFault>(DispatchFault::UnknownKeyAction(action)),
            Some(a) => if !(0 <= mods < 64) {
                r == Err::<Event, DispatchFault>(DispatchFault::InvalidModifiers(mods))
            } else {
                &&& r matches Ok(e)
                &&& match a {
                    crate::enums::Action::Press => e matches Event::KeyDown {
                        win: w,
                        key: k,
                        modifiers: m,
                    } && w == win && m.bits == mods as u32 && spec_key_matches(k, key, scancode),
                    crate::enums::Action::Release => e matches Event::KeyUp {
                        win: w,
                        key: k,
                        modifiers: m,
                    } && w == win && m.bits == mods as u32 && spec_key_matches(k, key, scancode),
                    crate::enums::Action::Repeat => e matches Event::KeyRepeat {
                        win: w,
                        key: k,
                        modifiers: m,
                    } && w == win && m.bits == mods as u32 && spec_key_matches(k, key, scancode),
                }
            },
        },
{
    match crate::enums::Action::from_code(action) {
        None => Err(DispatchFault::UnknownKeyAction(action)),
        Some(a) => match Modifiers::from_bits(mods) {
            None => Err(DispatchFault::InvalidModifiers(mods)),
            Some(m) => {
                let k = Key::from_codes(key, scancode);
                match a {
                    crate::enums::Action::Press => Ok(
                        Event::KeyDown { win, key: k, modifiers: m },
                    ),
                    crate::enums::Action::Release => Ok(
                        Event::KeyUp { win, key: k, modifiers: m },
                    ),
                    crate::enums::Action::Repeat => Ok(
                        Event::KeyRepeat { win, key: k, modifiers: m },
                    ),
                }
            },
        },
    }
}

/// What the key translation must deliver for a raw key-code pair: a named
/// key exactly when the code is in the static table, and the unnamed key
/// with the raw scancode otherwise.
pub open spec fn spec_key_matches(k: Key, key: i32, scancode: i32) -> bool {
    if KeyCode::spec_is_named(key) {
        k matches Key::Named(kc) && kc.spec_code() == key
    } else {
        k == Key::Unnamed(scancode)
    }
}

/// Law: unknown key codes degrade, they do not fail.  For a key code
/// outside the static table, the only key the translation contract admits
/// is the unnamed variant carrying the raw scancode — delivery goes
/// through, and the platform code is preserved.
pub proof fn lemma_unknown_key_degrades(key: i32, scancode: i32)
    requires
        !KeyCode::spec_is_named(key),
    ensures
        forall|k: Key| spec_key_matches(k, key, scancode) <==> k == Key::Unnamed(scancode),
{
}

/// Translates the character callback's code point; a value that is not a
/// Unicode scalar value is a dispatch fault.
pub fn translate_char(win: SharedWindow, code_point: u32) -> (r: Result<Event, DispatchFault>)
    ensures
        spec_is_scalar_value(code_point) ==> r == Ok::<Event, DispatchFault>(
            Event::CharTyped(win, code_point),
        ),
        !spec_is_scalar_value(code_point) ==> r == Err::<Event, DispatchFault>(
            DispatchFault::InvalidCodePoint(code_point),
        ),
{
    if is_scalar_value(code_point) {
        Ok(Event::CharTyped(win, code_point))
    } else {
        Err(DispatchFault::InvalidCodePoint(code_point))
    }
}

/// Translates the character-with-modifiers callback's payload.
pub fn translate_char_mods(win: SharedWindow, code_point: u32, mods: i32) -> (r: Result<
    Event,
    DispatchFault,
>)
    ensures
        !spec_is_scalar_value(code_point) ==> r == Err::<Event, DispatchFault>(
            DispatchFault::InvalidCodePoint(code_point),
        ),
        spec_is_scalar_value(code_point) && !(0 <= mods < 64) ==> r == Err::<Event, DispatchFault>(
            DispatchFault::InvalidModifiers(mods),
        ),
        spec_is_scalar_value(code_point) && 0 <= mods < 64 ==> {
            &&& r matches Ok(e)
            &&& e matches Event::CharModsTyped { win: w, code_point: cp, modifiers: m } && w == win
                && cp == code_point && m.bits == mods as u32
        },
{
    if !is_scalar_value(code_point) {
        Err(DispatchFault::InvalidCodePoint(code_point))
    } else {
        match Modifiers::from_bits(mods) {
            None => Err(DispatchFault::InvalidModifiers(mods)),
            Some(m) => Ok(Event::CharModsTyped { win, code_point, modifiers: m }),
        }
    }
}

} // verus!
