use marvin::clock::{Clock, SystemClock};
use marvin::command::AppEvent;
use marvin::error::AppError;
use marvin::platform::stub::StubPlatform;
use marvin::platform::WindowPlatform;

#[test]
fn error_messages() {
    assert_eq!(
        AppError::Input("key not mapped".to_string()).message(),
        "input simulation error: key not mapped"
    );
    assert_eq!(
        AppError::InputInit("no display".to_string()).message(),
        "input simulator init failed: no display"
    );
    assert_eq!(AppError::platform("oops").message(), "platform error: oops");
    assert_eq!(AppError::EngineGone.message(), "engine thread is no longer running");
    assert_eq!(
        AppError::AccessibilityDenied.message(),
        "accessibility permission denied - grant it under System Settings -> Privacy & Security -> Accessibility"
    );
}

#[test]
fn platform_constructor_keeps_text() {
    assert_eq!(AppError::platform("x"), AppError::Platform("x".to_string()));
}

#[test]
fn event_from_error() {
    let evt: AppEvent = AppError::EngineGone.into();
    assert_eq!(evt, AppEvent::Error(AppError::EngineGone));
}

#[test]
fn stub_platform_always_succeeds() {
    let p = StubPlatform::new();
    assert_eq!(p.set_click_through(true), Ok(()));
    assert_eq!(p.set_click_through(false), Ok(()));
    assert_eq!(p.set_always_on_top(true), Ok(()));
}

#[test]
fn system_clock_does_not_go_backwards() {
    let c = SystemClock;
    let a = c.now();
    let b = c.now();
    assert!(b >= a);
}
