use glfw_wrapper::enums::{InitHints, StandardCursorShape, WindowHints};
use glfw_wrapper::{init, GLFWcursor, GLFWwindow, Glfw, InitFlag, NativeAction, PumpError};

fn session() -> Glfw {
    let mut flag = InitFlag::new();
    init(InitHints::default(), &mut flag, Ok(())).unwrap()
}

#[test]
fn destroying_outside_event_processing_is_immediate() {
    let mut glfw = session();
    let handle = GLFWwindow { addr: 0xA };
    let hints = WindowHints::default();
    let win = glfw.create_window(&hints, 640, 480, None, Ok(handle)).unwrap();
    let act = glfw.destroy_window(win);
    assert_eq!(act, NativeAction::DestroyWindow(handle));
    assert!(!glfw.windows[win.id].alive);
    assert!(glfw.deferred.is_empty());
}

#[test]
fn destroying_during_event_processing_hides_now_and_destroys_on_drain() {
    let mut glfw = session();
    let handle = GLFWwindow { addr: 0xB };
    let hints = WindowHints::default();
    let win = glfw.create_window(&hints, 640, 480, None, Ok(handle)).unwrap();
    win.shared().set_should_close(&mut glfw, true);

    glfw.enter_event_processing();
    let act = glfw.destroy_window(win);
    glfw.exit_event_processing();

    // Visually inert: hidden at once, but still alive, and the state the
    // user relies on mid-callback is untouched.
    assert_eq!(act, NativeAction::HideWindow(handle));
    assert!(glfw.windows[win.id].alive);
    assert!(!glfw.windows[win.id].attributes.visible);
    assert!(win.shared().should_close(&glfw));

    // Eventually real: the next pump entry drains the queue.
    let acts = glfw.pump_events_begin().unwrap();
    assert_eq!(acts, vec![NativeAction::DestroyWindow(handle)]);
    assert!(!glfw.windows[win.id].alive);
    assert!(glfw.deferred.is_empty());
}

#[test]
fn destroying_another_window_leaves_the_executing_windows_state_alone() {
    let mut glfw = session();
    let hints = WindowHints::default();
    let first = glfw.create_window(&hints, 100, 100, None, Ok(GLFWwindow { addr: 1 })).unwrap();
    let second = glfw.create_window(&hints, 200, 200, None, Ok(GLFWwindow { addr: 2 })).unwrap();

    glfw.enter_event_processing();
    // A handler running for `first` destroys `second`.
    let before = glfw.windows[first.id];
    glfw.destroy_window(second);
    assert_eq!(glfw.windows[first.id], before);
    assert!(glfw.windows[first.id].alive);
    glfw.exit_event_processing();
}

#[test]
fn reentrant_pump_calls_fail_fast() {
    let mut glfw = session();
    glfw.enter_event_processing();
    assert_eq!(glfw.pump_events_begin(), Err(PumpError::Reentrant));
    glfw.exit_event_processing();
    assert!(glfw.pump_events_begin().is_ok());
}

#[test]
fn deferred_operations_drain_in_fifo_order() {
    let mut glfw = session();
    let hints = WindowHints::default();
    let w1 = glfw.create_window(&hints, 1, 1, None, Ok(GLFWwindow { addr: 11 })).unwrap();
    let w2 = glfw.create_window(&hints, 1, 1, None, Ok(GLFWwindow { addr: 22 })).unwrap();
    let cur = glfw
        .create_standard_cursor(StandardCursorShape::Hand, Ok(GLFWcursor { addr: 33 }))
        .unwrap();

    glfw.enter_event_processing();
    glfw.destroy_window(w2);
    let act = glfw.destroy_cursor(cur);
    assert_eq!(act, None);
    glfw.destroy_window(w1);
    glfw.exit_event_processing();

    let acts = glfw.process_reentrance_avoidance();
    assert_eq!(
        acts,
        vec![
            NativeAction::DestroyWindow(GLFWwindow { addr: 22 }),
            NativeAction::DestroyCursor(GLFWcursor { addr: 33 }),
            NativeAction::DestroyWindow(GLFWwindow { addr: 11 }),
        ]
    );
    assert!(!glfw.windows[w1.id].alive);
    assert!(!glfw.windows[w2.id].alive);
    assert!(!glfw.cursors[cur.id].alive);
}

#[test]
fn terminate_drains_and_invalidates_before_teardown() {
    let mut flag = InitFlag::new();
    let mut glfw = init(InitHints::default(), &mut flag, Ok(())).unwrap();
    let hints = WindowHints::default();
    let win = glfw.create_window(&hints, 1, 1, None, Ok(GLFWwindow { addr: 5 })).unwrap();
    let mon = glfw_wrapper::monitor::Monitor::create_from(
        &mut glfw.monitors,
        glfw_wrapper::GLFWmonitor { addr: 9 },
    );
    glfw.enter_event_processing();
    glfw.destroy_window(win);
    glfw.exit_event_processing();

    let acts = glfw.terminate(&mut flag);
    assert_eq!(acts, vec![NativeAction::DestroyWindow(GLFWwindow { addr: 5 })]);
    assert!(!mon.is_valid(&glfw.monitors));
    assert!(!flag.initialized);
}

#[test]
fn failed_window_creation_leaves_the_session_unchanged() {
    let mut glfw = session();
    let hints = WindowHints::default();
    let err = glfw_wrapper::Error {
        kind: glfw_wrapper::enums::ErrorKind::FormatUnavailable,
        description: String::from("no such format"),
    };
    let r = glfw.create_window(&hints, 1, 1, None, Err(err));
    assert!(matches!(r, Err(e) if e.kind == glfw_wrapper::enums::ErrorKind::FormatUnavailable));
    assert!(glfw.windows.is_empty());
}

#[test]
fn cursor_creation_and_immediate_destruction() {
    let mut glfw = session();
    let image = glfw_wrapper::misc::Image::new(4, 4);
    let cur = glfw.create_cursor(&image, 0, 0, Ok(GLFWcursor { addr: 77 })).unwrap();
    let act = glfw.destroy_cursor(cur);
    assert_eq!(act, Some(NativeAction::DestroyCursor(GLFWcursor { addr: 77 })));
    assert!(!glfw.cursors[cur.id].alive);
}
