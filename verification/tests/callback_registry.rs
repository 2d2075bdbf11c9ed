use glfw_wrapper::callbacks::{CallbackSlots, EventCategory};
use glfw_wrapper::enums::{InitHints, WindowHints};
use glfw_wrapper::{init, GLFWwindow, Glfw, InitFlag};

fn session_with_window() -> (Glfw, glfw_wrapper::window::Window) {
    let mut flag = InitFlag::new();
    let mut glfw = init(InitHints::default(), &mut flag, Ok(())).unwrap();
    let hints = WindowHints::default();
    let win = glfw.create_window(&hints, 1, 1, None, Ok(GLFWwindow { addr: 0xC0 })).unwrap();
    (glfw, win)
}

#[test]
fn a_fresh_window_has_no_handlers() {
    let (glfw, win) = session_with_window();
    assert_eq!(glfw.window_callback(&win, EventCategory::Key), None);
    assert_eq!(glfw.window_callback(&win, EventCategory::MouseButton), None);
    assert_eq!(glfw.windows[win.id].callbacks, CallbackSlots::empty());
}

#[test]
fn registering_stores_and_replaces_the_handler() {
    let (mut glfw, win) = session_with_window();
    glfw.set_callback(&win, EventCategory::Key, 41);
    assert_eq!(glfw.window_callback(&win, EventCategory::Key), Some(41));
    // Other categories are untouched.
    assert_eq!(glfw.window_callback(&win, EventCategory::Scroll), None);
    // Registering again replaces, never stacks.
    glfw.set_callback(&win, EventCategory::Key, 42);
    assert_eq!(glfw.window_callback(&win, EventCategory::Key), Some(42));
}

#[test]
fn unset_with_no_registered_handler_is_a_no_op() {
    let (mut glfw, win) = session_with_window();
    let before = glfw.windows[win.id];
    glfw.unset_callback(&win, EventCategory::CursorPos);
    assert_eq!(glfw.windows[win.id], before);
    // And unsetting a present handler clears exactly that slot.
    glfw.set_callback(&win, EventCategory::CursorPos, 5);
    glfw.set_callback(&win, EventCategory::Scroll, 6);
    glfw.unset_callback(&win, EventCategory::CursorPos);
    assert_eq!(glfw.window_callback(&win, EventCategory::CursorPos), None);
    assert_eq!(glfw.window_callback(&win, EventCategory::Scroll), Some(6));
    // Unsetting twice changes nothing further.
    let snapshot = glfw.windows[win.id];
    glfw.unset_callback(&win, EventCategory::CursorPos);
    assert_eq!(glfw.windows[win.id], snapshot);
}

#[test]
fn global_unset_is_idempotent_too() {
    let mut flag = InitFlag::new();
    let mut glfw = init(InitHints::default(), &mut flag, Ok(())).unwrap();
    glfw.unset_monitor_callback();
    assert_eq!(glfw.monitor_callback, None);
    glfw.set_monitor_callback(3);
    glfw.unset_monitor_callback();
    glfw.unset_monitor_callback();
    assert_eq!(glfw.monitor_callback, None);
    glfw.unset_joystick_callback();
    assert_eq!(glfw.joystick_callback, None);
}

#[test]
fn install_and_restore_round_trip_the_slots() {
    let mut flag = InitFlag::new();
    let mut glfw = init(InitHints::default(), &mut flag, Ok(())).unwrap();
    let hints = WindowHints::default();
    let w1 = glfw.create_window(&hints, 1, 1, None, Ok(GLFWwindow { addr: 1 })).unwrap();
    let w2 = glfw.create_window(&hints, 1, 1, None, Ok(GLFWwindow { addr: 2 })).unwrap();
    let w3 = glfw.create_window(&hints, 1, 1, None, Ok(GLFWwindow { addr: 3 })).unwrap();
    glfw.set_callback(&w1, EventCategory::Key, 10);
    glfw.set_callback(&w2, EventCategory::FileDrop, 20);

    let listed = vec![w1, w2];
    let prev = glfw.install_callbacks(&listed, 99);
    assert_eq!(prev.len(), 2);
    assert_eq!(glfw.windows[w1.id].callbacks, CallbackSlots::filled(99));
    assert_eq!(glfw.windows[w2.id].callbacks, CallbackSlots::filled(99));
    // A window not listed is untouched.
    assert_eq!(glfw.windows[w3.id].callbacks, CallbackSlots::empty());

    glfw.restore_callbacks(&listed, &prev);
    assert_eq!(glfw.window_callback(&w1, EventCategory::Key), Some(10));
    assert_eq!(glfw.window_callback(&w1, EventCategory::Scroll), None);
    assert_eq!(glfw.window_callback(&w2, EventCategory::FileDrop), Some(20));
    assert_eq!(glfw.window_callback(&w2, EventCategory::Key), None);
}

#[test]
fn with_slot_only_touches_the_named_category() {
    let empty = CallbackSlots::empty();
    let s = empty.with_slot(EventCategory::CharMods, Some(8));
    assert_eq!(s.char_mods, Some(8));
    assert_eq!(s.char_typed, None);
    assert_eq!(s.with_slot(EventCategory::CharMods, None), empty);
}
