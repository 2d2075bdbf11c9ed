use glfw_wrapper::enums::{
    ClientApi, ContextCreationApi, ContextReleaseBehavior, ContextRobustness, CursorMode,
    InitHints, InputMode, OpenGlProfile, SetInputMode, SetWindowAttribute, WindowAttribute,
    WindowHints,
};
use glfw_wrapper::{init, GLFWwindow, Glfw, InitFlag};

fn session() -> Glfw {
    let mut flag = InitFlag::new();
    init(InitHints::default(), &mut flag, Ok(())).unwrap()
}

#[test]
fn default_hints_match_the_native_documentation() {
    let h = WindowHints::default();
    assert!(h.resizable && h.visible && h.decorated && h.focused && h.auto_iconify);
    assert!(!h.floating && !h.maximized && !h.transparent_framebuffer);
    assert!(h.center_cursor && h.double_buffer && !h.stereo && !h.srgb_capable);
    assert_eq!(h.red_bits, Some(8));
    assert_eq!(h.depth_bits, Some(24));
    assert_eq!(h.stencil_bits, Some(8));
    assert_eq!(h.accum_red_bits, Some(0));
    assert_eq!(h.samples, Some(0));
    assert_eq!(h.refresh_rate, None);
    assert_eq!(h.client_api, ClientApi::OpenGl);
    assert_eq!(h.context_creation_api, ContextCreationApi::Native);
    assert_eq!(h.context_version_major, 1);
    assert_eq!(h.context_version_minor, 0);
    assert_eq!(h.context_robustness, ContextRobustness::NoRobustness);
    assert_eq!(h.context_release_behavior, ContextReleaseBehavior::Any);
    assert_eq!(h.opengl_profile, OpenGlProfile::Any);
    assert!(!h.opengl_forward_compatible && !h.opengl_debug_context && !h.context_no_error);
    assert!(h.cocoa_retina_framebuffer && !h.cocoa_graphics_switching);
    assert_eq!(h.cocoa_frame_name, "");
    assert_eq!(h.x11_class_name, "");
    assert_eq!(h.x11_instance_name, "");
}

#[test]
fn hint_codes_carry_every_integer_hint_in_order() {
    let h = WindowHints::default();
    let codes = h.hint_codes();
    assert_eq!(codes.len(), 37);
    // Spot-check the mapping against the native constants.
    assert_eq!(codes[0], (0x00020003, 1)); // resizable = true
    assert_eq!(codes[5], (0x00020007, 0)); // floating = false
    assert_eq!(codes[12], (0x00021001, 8)); // red bits = 8
    assert_eq!(codes[24], (0x0002100F, -1)); // refresh rate = don't care
    assert_eq!(codes[25], (0x00022001, 0x00030001)); // client api = OpenGL
    assert_eq!(codes[30], (0x00022002, 1)); // context version major
    assert_eq!(codes[31], (0x00022003, 0)); // context version minor
    assert_eq!(codes[36], (0x00023003, 0)); // graphics switching = false
}

#[test]
fn window_attributes_round_trip_the_hints() {
    let mut glfw = session();
    let mut hints = WindowHints::default();
    hints.resizable = false;
    hints.visible = false;
    hints.floating = true;
    hints.maximized = true;
    hints.opengl_debug_context = true;
    hints.client_api = ClientApi::OpenGlEs;
    hints.opengl_profile = OpenGlProfile::Core;
    hints.context_version_major = 3;
    hints.context_version_minor = 2;
    let win = glfw.create_window(&hints, 640, 480, None, Ok(GLFWwindow { addr: 0xF })).unwrap();

    assert!(!glfw.get_attribute(&win, WindowAttribute::Resizable));
    assert!(!glfw.get_attribute(&win, WindowAttribute::Visible));
    assert!(glfw.get_attribute(&win, WindowAttribute::Floating));
    assert!(glfw.get_attribute(&win, WindowAttribute::Maximized));
    assert!(glfw.get_attribute(&win, WindowAttribute::Decorated));
    assert!(glfw.get_attribute(&win, WindowAttribute::OpenGlDebugContext));
    assert!(!glfw.get_attribute(&win, WindowAttribute::OpenGlForwardCompat));
    // A fresh window is neither iconified nor hovered.
    assert!(!glfw.get_attribute(&win, WindowAttribute::Iconified));
    assert!(!glfw.get_attribute(&win, WindowAttribute::Hovered));
    assert_eq!(glfw.get_client_api_attribute(&win), ClientApi::OpenGlEs);
    assert_eq!(glfw.get_opengl_profile_attribute(&win), OpenGlProfile::Core);
    assert_eq!(glfw.get_context_version_attribute(&win), (3, 2, 0));
    assert_eq!(glfw.get_context_creation_api_attribute(&win), ContextCreationApi::Native);
    assert_eq!(
        glfw.get_context_robustness_attribute(&win),
        ContextRobustness::NoRobustness
    );
}

#[test]
fn set_attribute_updates_exactly_the_named_attribute() {
    let mut glfw = session();
    let hints = WindowHints::default();
    let win = glfw.create_window(&hints, 1, 1, None, Ok(GLFWwindow { addr: 4 })).unwrap();
    glfw.set_attribute(&win, SetWindowAttribute::Decorated(false));
    assert!(!glfw.get_attribute(&win, WindowAttribute::Decorated));
    assert!(glfw.get_attribute(&win, WindowAttribute::Resizable));
    glfw.set_attribute(&win, SetWindowAttribute::Floating(true));
    assert!(glfw.get_attribute(&win, WindowAttribute::Floating));
    assert!(!glfw.get_attribute(&win, WindowAttribute::Decorated));
    assert_eq!(
        SetWindowAttribute::AutoIconify(false).attrib_and_value(),
        (0x00020006, 0)
    );
}

#[test]
fn input_modes_start_at_the_native_defaults_and_update() {
    let mut glfw = session();
    let hints = WindowHints::default();
    let win = glfw.create_window(&hints, 1, 1, None, Ok(GLFWwindow { addr: 6 })).unwrap();
    assert_eq!(glfw.get_cursor_mode(&win), CursorMode::Normal);
    assert!(!glfw.get_input_mode(&win, InputMode::StickyKeys));
    glfw.set_input_mode(&win, SetInputMode::Cursor(CursorMode::Disabled));
    glfw.set_input_mode(&win, SetInputMode::StickyKeys(true));
    assert_eq!(glfw.get_cursor_mode(&win), CursorMode::Disabled);
    assert!(glfw.get_input_mode(&win, InputMode::StickyKeys));
    assert!(!glfw.get_input_mode(&win, InputMode::LockKeyMods));
    assert_eq!(
        SetInputMode::Cursor(CursorMode::Hidden).mode_and_value(),
        (0x00033001, 0x00034002)
    );
    assert_eq!(SetInputMode::RawMouseMotion(true).mode_and_value(), (0x00033005, 1));
}

#[test]
fn window_state_operations_update_the_recorded_attributes() {
    let mut glfw = session();
    let hints = WindowHints::default();
    let win = glfw.create_window(&hints, 1, 1, None, Ok(GLFWwindow { addr: 8 })).unwrap();
    win.hide_window(&mut glfw);
    assert!(!glfw.get_attribute(&win, WindowAttribute::Visible));
    win.show(&mut glfw);
    assert!(glfw.get_attribute(&win, WindowAttribute::Visible));
    win.iconify(&mut glfw);
    assert!(glfw.get_attribute(&win, WindowAttribute::Iconified));
    win.restore(&mut glfw);
    assert!(!glfw.get_attribute(&win, WindowAttribute::Iconified));
    win.maximize(&mut glfw);
    assert!(glfw.get_attribute(&win, WindowAttribute::Maximized));
    win.restore(&mut glfw);
    assert!(!glfw.get_attribute(&win, WindowAttribute::Maximized));
    win.focus(&mut glfw);
    assert!(glfw.get_attribute(&win, WindowAttribute::Focused));
}

#[test]
fn find_window_locates_live_handles_only() {
    let mut glfw = session();
    let hints = WindowHints::default();
    let handle = GLFWwindow { addr: 0xAA };
    let win = glfw.create_window(&hints, 1, 1, None, Ok(handle)).unwrap();
    let found = glfw.find_window(handle).unwrap();
    assert_eq!(found.id, win.id);
    assert!(glfw.find_window(GLFWwindow { addr: 0xBB }).is_none());
    glfw.destroy_window(win);
    assert!(glfw.find_window(handle).is_none());
}
