use glfw_wrapper::enums::{
    Action, CursorMode, Joystick, JoystickHatState, Key, KeyCode, Modifiers, MouseButton,
    StandardCursorShape,
};
use glfw_wrapper::misc::{Image, Pixel};
use glfw_wrapper::monitor::GammaRamp;
use glfw_wrapper::util::{bool_to_cint, cint_to_bool, cuchar_to_bool, or_dont_care};

#[test]
fn key_codes_match_the_native_table() {
    assert_eq!(KeyCode::Space.code(), 32);
    assert_eq!(KeyCode::Zero.code(), 48);
    assert_eq!(KeyCode::A.code(), 65);
    assert_eq!(KeyCode::Z.code(), 90);
    assert_eq!(KeyCode::Escape.code(), 256);
    assert_eq!(KeyCode::F1.code(), 290);
    assert_eq!(KeyCode::F25.code(), 314);
    assert_eq!(KeyCode::Kp0.code(), 320);
    assert_eq!(KeyCode::KpEqual.code(), 336);
    assert_eq!(KeyCode::LeftShift.code(), 340);
    assert_eq!(KeyCode::Menu.code(), 348);
}

#[test]
fn key_code_lookup_round_trips_and_rejects_gaps() {
    let samples = [
        KeyCode::Space,
        KeyCode::Apostrophe,
        KeyCode::Nine,
        KeyCode::Semicolon,
        KeyCode::Equal,
        KeyCode::GraveAccent,
        KeyCode::World2,
        KeyCode::End,
        KeyCode::Pause,
        KeyCode::F12,
        KeyCode::KpDecimal,
        KeyCode::RightSuper,
    ];
    for k in samples {
        assert_eq!(KeyCode::from_code(k.code()), Some(k));
    }
    for gap in [-1, 0, 31, 33, 58, 60, 64, 94, 95, 97, 160, 163, 255, 270, 285, 315, 337, 349] {
        assert_eq!(KeyCode::from_code(gap), None, "code {gap} should be no named key");
    }
}

#[test]
fn unnamed_keys_carry_their_scancode() {
    assert_eq!(Key::from_codes(65, 123), Key::Named(KeyCode::A));
    assert_eq!(Key::from_codes(-1, 123), Key::Unnamed(123));
    assert_eq!(Key::from_codes(500, 77), Key::Unnamed(77));
}

#[test]
fn action_codes_cover_press_release_repeat() {
    assert_eq!(Action::from_code(0), Some(Action::Release));
    assert_eq!(Action::from_code(1), Some(Action::Press));
    assert_eq!(Action::from_code(2), Some(Action::Repeat));
    assert_eq!(Action::from_code(3), None);
    assert_eq!(Action::Press.code(), 1);
}

#[test]
fn small_enums_round_trip_their_codes() {
    for b in [
        MouseButton::Left,
        MouseButton::Right,
        MouseButton::Middle,
        MouseButton::Four,
        MouseButton::Eight,
    ] {
        assert_eq!(MouseButton::from_code(b.code()), Some(b));
    }
    assert_eq!(MouseButton::Left.code(), 0);
    assert_eq!(MouseButton::from_code(8), None);
    for j in [Joystick::One, Joystick::Nine, Joystick::Sixteen] {
        assert_eq!(Joystick::from_code(j.code()), Some(j));
    }
    assert_eq!(Joystick::from_code(16), None);
    for m in [CursorMode::Normal, CursorMode::Hidden, CursorMode::Disabled] {
        assert_eq!(CursorMode::from_code(m.code()), Some(m));
    }
    assert_eq!(CursorMode::Normal.code(), 0x00034001);
    assert_eq!(CursorMode::from_code(0), None);
    assert_eq!(StandardCursorShape::Arrow.code(), 0x00036001);
    assert_eq!(StandardCursorShape::VResize.code(), 0x00036006);
}

#[test]
fn modifier_words_validate_and_expose_their_bits() {
    let m = Modifiers::from_bits(0x01 | 0x04 | 0x20).unwrap();
    assert!(m.shift());
    assert!(!m.control());
    assert!(m.alt());
    assert!(!m.super_key());
    assert!(!m.caps_lock());
    assert!(m.num_lock());
    assert_eq!(Modifiers::from_bits(0), Some(Modifiers::empty()));
    assert_eq!(Modifiers::from_bits(0x3F).map(|m| m.bits), Some(0x3F));
    assert_eq!(Modifiers::from_bits(0x40), None);
    assert_eq!(Modifiers::from_bits(-3), None);
}

#[test]
fn hat_states_accept_only_the_nine_documented_patterns() {
    for bits in [0u8, 1, 2, 3, 4, 6, 8, 9, 12] {
        let h = JoystickHatState::from_bits(bits).unwrap();
        assert_eq!(h.bits, bits);
    }
    for bits in [5u8, 7, 10, 11, 13, 15, 16, 255] {
        assert_eq!(JoystickHatState::from_bits(bits), None);
    }
    let h = JoystickHatState::from_bits(9).unwrap();
    assert!(h.up());
    assert!(h.left());
    assert!(!h.right());
    assert!(!h.down());
    assert!(!h.centered());
    assert!(JoystickHatState::from_bits(0).unwrap().centered());
}

#[test]
fn native_integer_conventions() {
    assert_eq!(bool_to_cint(true), 1);
    assert_eq!(bool_to_cint(false), 0);
    assert!(cint_to_bool(1));
    assert!(cint_to_bool(-7));
    assert!(!cint_to_bool(0));
    assert!(cuchar_to_bool(255));
    assert!(!cuchar_to_bool(0));
    assert_eq!(or_dont_care(Some(60)), 60);
    assert_eq!(or_dont_care(None), -1);
}

#[test]
fn images_hold_their_pixels_in_row_major_order() {
    let mut image = Image::new(3, 2);
    assert_eq!(image.width, 3);
    assert_eq!(image.height, 2);
    assert_eq!(image.pixels.len(), 6);
    let p = Pixel { red: 1, green: 2, blue: 3, alpha: 4 };
    image.set_pixel(2, 1, p);
    assert_eq!(image.pixel(2, 1), p);
    assert_eq!(image.pixel(0, 0), Pixel { red: 0, green: 0, blue: 0, alpha: 0 });
    assert_eq!(image.pixels[5], p);
}

#[test]
fn empty_image_is_allowed() {
    let image = Image::new(0, 0);
    assert!(image.pixels.is_empty());
}

#[test]
fn gamma_ramps_split_and_rebuild_losslessly() {
    let ramp = GammaRamp(vec![(1, 2, 3), (4, 5, 6), (7, 8, 9)]);
    let (red, green, blue) = ramp.to_channels();
    assert_eq!(red, vec![1, 4, 7]);
    assert_eq!(green, vec![2, 5, 8]);
    assert_eq!(blue, vec![3, 6, 9]);
    let rebuilt = GammaRamp::from_channels(&red, &green, &blue);
    assert_eq!(rebuilt, ramp);
}
