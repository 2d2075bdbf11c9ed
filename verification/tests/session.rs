use glfw_wrapper::enums::{ErrorKind, InitHints};
use glfw_wrapper::{
    classify_error_code, error_code_is_fatal, init, interpret_error, Error, InitError, InitFlag,
};

#[test]
fn first_init_succeeds_and_second_reports_already_initialized() {
    let mut flag = InitFlag::new();
    let first = init(InitHints::default(), &mut flag, Ok(()));
    assert!(first.is_ok());
    let second = init(InitHints::default(), &mut flag, Ok(()));
    assert!(matches!(second, Err(InitError::AlreadyInitialized)));
}

#[test]
fn init_succeeds_again_after_terminate() {
    let mut flag = InitFlag::new();
    let mut glfw = init(InitHints::default(), &mut flag, Ok(())).unwrap();
    let acts = glfw.terminate(&mut flag);
    assert!(acts.is_empty());
    let again = init(InitHints::default(), &mut flag, Ok(()));
    assert!(again.is_ok());
}

#[test]
fn failed_native_init_rolls_the_flag_back() {
    let mut flag = InitFlag::new();
    let err = Error { kind: ErrorKind::PlatformError, description: String::from("no display") };
    let r = init(InitHints::default(), &mut flag, Err(err.clone()));
    match r {
        Err(InitError::Failed(e)) => {
            assert_eq!(e.kind, ErrorKind::PlatformError);
            assert_eq!(e.description, "no display");
        },
        _ => panic!("expected the native failure to be handed back"),
    }
    // The flag was rolled back, so the next attempt may succeed.
    let again = init(InitHints::default(), &mut flag, Ok(()));
    assert!(again.is_ok());
}

#[test]
fn init_hint_codes_follow_the_native_constants() {
    let hints = InitHints { cocoa_chdir_resources: true, cocoa_menubar: false, joystick_hat_buttons: true };
    let codes = hints.hint_codes();
    assert_eq!(codes, vec![(0x00051001, 1), (0x00051002, 0), (0x00050001, 1)]);
}

#[test]
fn recoverable_error_codes_classify_to_their_kinds() {
    assert_eq!(classify_error_code(0x00010002), Some(ErrorKind::NoCurrentContext));
    assert_eq!(classify_error_code(0x00010004), Some(ErrorKind::InvalidValue));
    assert_eq!(classify_error_code(0x00010005), Some(ErrorKind::OutOfMemory));
    assert_eq!(classify_error_code(0x00010006), Some(ErrorKind::ApiUnavailable));
    assert_eq!(classify_error_code(0x00010007), Some(ErrorKind::VersionUnavailable));
    assert_eq!(classify_error_code(0x00010008), Some(ErrorKind::PlatformError));
    assert_eq!(classify_error_code(0x00010009), Some(ErrorKind::FormatUnavailable));
    assert_eq!(classify_error_code(0x0001000A), Some(ErrorKind::NoWindowContext));
}

#[test]
fn unrecognized_error_codes_are_fatal() {
    // The no-error code, the codes reserved for wrapper bugs, and anything
    // unknown must never reach the recoverable path.
    assert!(error_code_is_fatal(0));
    assert!(error_code_is_fatal(0x00010001));
    assert!(error_code_is_fatal(0x00010003));
    assert!(error_code_is_fatal(0x7FFFFFFF));
    assert!(!error_code_is_fatal(0x00010008));
}

#[test]
fn interpret_error_returns_the_typed_error_or_success() {
    let ok = interpret_error(0, String::new());
    assert!(ok.is_ok());
    let err = interpret_error(0x00010005, String::from("exhausted")).unwrap_err();
    assert_eq!(err.kind, ErrorKind::OutOfMemory);
    assert_eq!(err.description, "exhausted");
}

#[test]
fn error_kind_codes_round_trip() {
    let kinds = [
        ErrorKind::NoCurrentContext,
        ErrorKind::InvalidValue,
        ErrorKind::OutOfMemory,
        ErrorKind::ApiUnavailable,
        ErrorKind::VersionUnavailable,
        ErrorKind::PlatformError,
        ErrorKind::FormatUnavailable,
        ErrorKind::NoWindowContext,
    ];
    for k in kinds {
        assert_eq!(ErrorKind::from_code(k.code()), Some(k));
    }
}
