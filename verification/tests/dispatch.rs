use glfw_wrapper::codes::{GLFW_CONNECTED, GLFW_DISCONNECTED, GLFW_PRESS, GLFW_RELEASE, GLFW_REPEAT};
use glfw_wrapper::enums::{InitHints, Joystick, Key, KeyCode, MouseButton};
use glfw_wrapper::events::{
    translate_char, translate_char_mods, translate_cursor_enter, translate_focus,
    translate_iconify, translate_key, translate_maximize, translate_mouse_button, DispatchFault,
    Event,
};
use glfw_wrapper::window::SharedWindow;
use glfw_wrapper::{init, GLFWmonitor, Glfw, InitFlag};

fn session() -> Glfw {
    let mut flag = InitFlag::new();
    init(InitHints::default(), &mut flag, Ok(())).unwrap()
}

fn win() -> SharedWindow {
    SharedWindow { id: 0 }
}

#[test]
fn mouse_button_press_then_release_fans_out_to_down_then_up() {
    let w = win();
    let stream = [GLFW_PRESS, GLFW_RELEASE].map(|action| {
        translate_mouse_button(w, 0, action, 0).unwrap()
    });
    assert!(matches!(
        stream[0],
        Event::MouseButtonDown { button: MouseButton::Left, .. }
    ));
    assert!(matches!(
        stream[1],
        Event::MouseButtonUp { button: MouseButton::Left, .. }
    ));
    assert_ne!(stream[0], stream[1]);
}

#[test]
fn mouse_button_faults_identify_the_bad_payload() {
    let w = win();
    assert_eq!(
        translate_mouse_button(w, 99, GLFW_PRESS, 0),
        Err(DispatchFault::UnknownMouseButton(99))
    );
    assert_eq!(
        translate_mouse_button(w, 0, GLFW_PRESS, 0x40),
        Err(DispatchFault::InvalidModifiers(0x40))
    );
}

#[test]
fn unknown_key_codes_degrade_to_unnamed_keys() {
    let w = win();
    // 0x1234 is no entry of the static key table; the scancode is carried.
    let e = translate_key(w, 0x1234, 42, GLFW_PRESS, 0).unwrap();
    assert!(matches!(e, Event::KeyDown { key: Key::Unnamed(42), .. }));
    // A named key translates to its table entry.
    let e = translate_key(w, 65, 0, GLFW_RELEASE, 0).unwrap();
    assert!(matches!(e, Event::KeyUp { key: Key::Named(KeyCode::A), .. }));
    let e = translate_key(w, 32, 0, GLFW_REPEAT, 0x01).unwrap();
    match e {
        Event::KeyRepeat { key, modifiers, .. } => {
            assert_eq!(key, Key::Named(KeyCode::Space));
            assert!(modifiers.shift());
            assert!(!modifiers.control());
        },
        _ => panic!("expected a key-repeat event"),
    }
}

#[test]
fn key_translation_faults_on_undocumented_payloads() {
    let w = win();
    assert_eq!(translate_key(w, 65, 0, 3, 0), Err(DispatchFault::UnknownKeyAction(3)));
    assert_eq!(translate_key(w, 65, 0, GLFW_PRESS, -1), Err(DispatchFault::InvalidModifiers(-1)));
}

#[test]
fn boolean_callbacks_fan_out_to_distinct_events() {
    let w = win();
    assert_eq!(translate_focus(w, 1), Event::WindowFocused(w));
    assert_eq!(translate_focus(w, 0), Event::WindowDefocused(w));
    assert_eq!(translate_iconify(w, 2), Event::WindowIconified(w));
    assert_eq!(translate_iconify(w, 0), Event::WindowDeiconified(w));
    assert_eq!(translate_maximize(w, 1), Event::WindowMaximized(w));
    assert_eq!(translate_maximize(w, 0), Event::WindowDemaximized(w));
    assert_eq!(translate_cursor_enter(w, 1), Event::CursorEntered(w));
    assert_eq!(translate_cursor_enter(w, 0), Event::CursorExited(w));
}

#[test]
fn character_payloads_are_validated() {
    let w = win();
    assert_eq!(translate_char(w, 0x41), Ok(Event::CharTyped(w, 0x41)));
    assert_eq!(translate_char(w, 0xD800), Err(DispatchFault::InvalidCodePoint(0xD800)));
    assert_eq!(translate_char(w, 0x110000), Err(DispatchFault::InvalidCodePoint(0x110000)));
    let e = translate_char_mods(w, 0x1F600, 0x02).unwrap();
    assert!(matches!(e, Event::CharModsTyped { code_point: 0x1F600, .. }));
    assert_eq!(
        translate_char_mods(w, 0x41, 64),
        Err(DispatchFault::InvalidModifiers(64))
    );
}

#[test]
fn monitor_connection_registers_a_handle_only_for_a_handler() {
    let mut glfw = session();
    let ptr = GLFWmonitor { addr: 0x500 };

    // No handler: the event goes nowhere and nothing is registered.
    let d = glfw.deliver_monitor_event(ptr, GLFW_CONNECTED).unwrap();
    assert!(d.is_none());
    assert!(glfw.monitors.entries.is_empty());

    glfw.set_monitor_callback(7);
    let d = glfw.deliver_monitor_event(ptr, GLFW_CONNECTED).unwrap();
    let (handler, event) = d.unwrap();
    assert_eq!(handler, 7);
    let monitor = match event {
        Event::MonitorConnected(m) => m,
        _ => panic!("expected a connection event"),
    };
    assert!(monitor.is_valid(&glfw.monitors));

    // Disconnection invalidates the handle and names it to the handler.
    let d = glfw.deliver_monitor_event(ptr, GLFW_DISCONNECTED).unwrap();
    let (_, event) = d.unwrap();
    assert!(matches!(event, Event::MonitorDisconnected(dm) if dm.ptr == ptr));
    assert!(!monitor.is_valid(&glfw.monitors));
}

#[test]
fn monitor_disconnection_invalidates_even_without_a_handler() {
    let mut glfw = session();
    let ptr = GLFWmonitor { addr: 0x600 };
    glfw.set_monitor_callback(1);
    let d = glfw.deliver_monitor_event(ptr, GLFW_CONNECTED).unwrap();
    let monitor = match d.unwrap().1 {
        Event::MonitorConnected(m) => m,
        _ => panic!("expected a connection event"),
    };
    glfw.unset_monitor_callback();
    let d = glfw.deliver_monitor_event(ptr, GLFW_DISCONNECTED).unwrap();
    assert!(d.is_none());
    assert!(!monitor.is_valid(&glfw.monitors));
}

#[test]
fn unknown_monitor_event_codes_are_faults() {
    let mut glfw = session();
    let r = glfw.deliver_monitor_event(GLFWmonitor { addr: 1 }, 0x12345);
    assert_eq!(r, Err(DispatchFault::UnknownMonitorEvent(0x12345)));
}

#[test]
fn joystick_events_validate_code_then_identifier() {
    let mut glfw = session();
    assert_eq!(
        glfw.deliver_joystick_event(0, 0x999),
        Err(DispatchFault::UnknownJoystickEvent(0x999))
    );
    assert_eq!(
        glfw.deliver_joystick_event(16, GLFW_CONNECTED),
        Err(DispatchFault::UnknownJoystick(16))
    );
    assert_eq!(glfw.deliver_joystick_event(2, GLFW_CONNECTED), Ok(None));
    glfw.set_joystick_callback(9);
    assert_eq!(
        glfw.deliver_joystick_event(2, GLFW_CONNECTED),
        Ok(Some((9, Event::JoystickConnected(Joystick::Three))))
    );
    assert_eq!(
        glfw.deliver_joystick_event(2, GLFW_DISCONNECTED),
        Ok(Some((9, Event::JoystickDisconnected(Joystick::Three))))
    );
    glfw.unset_joystick_callback();
    assert_eq!(glfw.deliver_joystick_event(2, GLFW_DISCONNECTED), Ok(None));
}
