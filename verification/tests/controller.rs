use marvin::app::{report_platform, AppState, Controller, Effect, PlaybackState};
use marvin::command::{AppEvent, EngineCommand};
use marvin::config::{COUNTDOWN_DEFAULT_SECS, DONE_LINGER_NANOS, NANOS_PER_SEC, TYPING_DELAY_DEFAULT_MS};
use marvin::error::AppError;

const SEC: u64 = NANOS_PER_SEC;

fn controller_with(script: &str) -> Controller {
    let mut c = Controller::new();
    c.set_script(script.to_string());
    c
}

fn counting_down(script: &str, start: u64) -> Controller {
    let mut c = controller_with(script);
    let effects = c.handle_trigger(start);
    assert_eq!(effects, vec![Effect::SetClickThrough(true)]);
    c
}

fn typing(script: &str) -> Controller {
    let mut c = counting_down(script, 0);
    let effects = c.tick_countdown(COUNTDOWN_DEFAULT_SECS as u64 * SEC);
    assert_eq!(effects.len(), 2);
    c
}

#[test]
fn new_controller_has_defaults() {
    let c = Controller::new();
    let s = c.state();
    assert_eq!(s.script_content, "");
    assert_eq!(s.typing_delay_ms, TYPING_DELAY_DEFAULT_MS);
    assert_eq!(s.countdown_secs, COUNTDOWN_DEFAULT_SECS);
    assert_eq!(s.playback, PlaybackState::Idle);
    assert_eq!(c.error_banner(), &None);
    assert!(!c.needs_repaint());
}

#[test]
fn app_state_and_playback_defaults() {
    let s = AppState::default();
    assert_eq!(s.typing_delay_ms, 15);
    assert_eq!(s.countdown_secs, 3);
    assert_eq!(s.playback, PlaybackState::Idle);
    assert_eq!(PlaybackState::default(), PlaybackState::Idle);
}

#[test]
fn active_states_are_countdown_and_typing() {
    assert!(!PlaybackState::Idle.is_active());
    assert!(PlaybackState::Countdown { remaining_nanos: 5 }.is_active());
    assert!(PlaybackState::Typing { chars_done: 0, chars_total: 3 }.is_active());
    assert!(!PlaybackState::Done.is_active());
}

#[test]
fn progress_fraction_never_divides_by_zero() {
    assert_eq!(
        PlaybackState::Typing { chars_done: 5, chars_total: 10 }.progress_fraction(),
        Some((5, 10))
    );
    assert_eq!(
        PlaybackState::Typing { chars_done: 0, chars_total: 0 }.progress_fraction(),
        Some((0, 1))
    );
    assert_eq!(PlaybackState::Idle.progress_fraction(), None);
    assert_eq!(PlaybackState::Countdown { remaining_nanos: 1 }.progress_fraction(), None);
    assert_eq!(PlaybackState::Done.progress_fraction(), None);
}

#[test]
fn trigger_with_empty_script_only_shows_error() {
    let mut c = Controller::new();
    let effects = c.handle_trigger(7);
    assert!(effects.is_empty());
    assert_eq!(c.state().playback, PlaybackState::Idle);
    assert_eq!(c.error_banner().as_deref(), Some("Script is empty"));
}

#[test]
fn trigger_starts_full_countdown_and_clears_error() {
    let mut c = Controller::new();
    c.handle_trigger(0);
    assert!(c.error_banner().is_some());
    c.set_script("echo hi".to_string());
    let effects = c.handle_trigger(100);
    assert_eq!(effects, vec![Effect::SetClickThrough(true)]);
    assert_eq!(c.state().playback, PlaybackState::Countdown { remaining_nanos: 3 * SEC });
    assert_eq!(c.error_banner(), &None);
    assert!(c.needs_repaint());
}

#[test]
fn second_trigger_during_run_is_ignored() {
    let mut c = counting_down("abc", 0);
    let effects = c.handle_trigger(SEC);
    assert!(effects.is_empty());
    assert_eq!(c.state().playback, PlaybackState::Countdown { remaining_nanos: 3 * SEC });
    let mut t = typing("abc");
    assert!(t.handle_trigger(10 * SEC).is_empty());
    assert_eq!(t.state().playback, PlaybackState::Typing { chars_done: 0, chars_total: 3 });
}

#[test]
fn countdown_tick_shows_remaining_time() {
    let mut c = counting_down("abc", 10);
    assert!(c.tick_countdown(10 + SEC).is_empty());
    assert_eq!(c.state().playback, PlaybackState::Countdown { remaining_nanos: 2 * SEC });
    assert!(c.tick_countdown(10 + 2 * SEC + 500).is_empty());
    assert_eq!(c.state().playback, PlaybackState::Countdown { remaining_nanos: SEC - 500 });
}

#[test]
fn clock_going_backwards_counts_as_no_time() {
    let mut c = counting_down("abc", 5 * SEC);
    assert!(c.tick_countdown(SEC).is_empty());
    assert_eq!(c.state().playback, PlaybackState::Countdown { remaining_nanos: 3 * SEC });
}

#[test]
fn countdown_end_starts_typing_with_char_count() {
    let mut c = counting_down("h\u{e9}llo", 0);
    c.set_typing_delay_ms(40);
    let effects = c.tick_countdown(3 * SEC);
    assert_eq!(
        effects,
        vec![
            Effect::SetClickThrough(false),
            Effect::Send(EngineCommand::Start { content: "h\u{e9}llo".to_string(), delay_ms: 40 }),
        ]
    );
    assert_eq!(c.state().playback, PlaybackState::Typing { chars_done: 0, chars_total: 5 });
    // A later tick changes nothing once typing has begun.
    assert!(c.tick_countdown(100 * SEC).is_empty());
    assert_eq!(c.state().playback, PlaybackState::Typing { chars_done: 0, chars_total: 5 });
}

#[test]
fn tick_outside_countdown_does_nothing() {
    let mut c = controller_with("x");
    assert!(c.tick_countdown(99).is_empty());
    assert_eq!(c.state().playback, PlaybackState::Idle);
}

#[test]
fn engine_gone_at_start_ends_run() {
    let mut c = counting_down("abc", 0);
    c.tick_countdown(3 * SEC);
    c.report_platform_result(Ok(()));
    c.report_send_result(false);
    assert_eq!(c.state().playback, PlaybackState::Idle);
    assert_eq!(c.error_banner().as_deref(), Some("engine thread is no longer running"));
}

#[test]
fn delivered_send_keeps_typing() {
    let mut c = typing("abc");
    c.report_send_result(true);
    assert_eq!(c.state().playback, PlaybackState::Typing { chars_done: 0, chars_total: 3 });
    assert_eq!(c.error_banner(), &None);
}

#[test]
fn abort_key_during_run_stops_engine() {
    let mut c = typing("abc");
    let effects = c.handle_abort_key(true);
    assert_eq!(effects, vec![Effect::Send(EngineCommand::Abort), Effect::SetClickThrough(false)]);
    assert_eq!(c.state().playback, PlaybackState::Idle);

    let mut d = counting_down("abc", 0);
    assert_eq!(d.handle_abort_key(true).len(), 2);
    assert_eq!(d.state().playback, PlaybackState::Idle);
    // A countdown that was aborted does not resume.
    assert!(d.tick_countdown(10 * SEC).is_empty());
    assert_eq!(d.state().playback, PlaybackState::Idle);
}

#[test]
fn abort_key_ignored_when_idle_or_not_pressed() {
    let mut c = controller_with("abc");
    assert!(c.handle_abort_key(true).is_empty());
    let mut t = typing("abc");
    assert!(t.handle_abort_key(false).is_empty());
    assert_eq!(t.state().playback, PlaybackState::Typing { chars_done: 0, chars_total: 3 });
}

#[test]
fn abort_with_engine_gone_and_platform_error() {
    let mut c = typing("abc");
    c.handle_abort_key(true);
    c.report_send_result(false);
    c.report_platform_result(Err(AppError::platform("no window")));
    assert_eq!(c.state().playback, PlaybackState::Idle);
    assert_eq!(c.error_banner().as_deref(), Some("platform error: no window"));
}

#[test]
fn engine_events_drive_playback() {
    let mut c = typing("abcd");
    assert!(c
        .apply_engine_event(AppEvent::TypingProgress { chars_done: 2, chars_total: 4 }, 0)
        .is_empty());
    assert_eq!(c.state().playback, PlaybackState::Typing { chars_done: 2, chars_total: 4 });
    assert_eq!(c.state().playback.progress_fraction(), Some((2, 4)));

    assert_eq!(c.apply_engine_event(AppEvent::Complete, 50 * SEC), vec![Effect::SetClickThrough(false)]);
    assert_eq!(c.state().playback, PlaybackState::Done);
    assert!(c.needs_repaint());

    let mut d = typing("abcd");
    assert_eq!(d.apply_engine_event(AppEvent::Aborted, 0), vec![Effect::SetClickThrough(false)]);
    assert_eq!(d.state().playback, PlaybackState::Idle);
}

#[test]
fn trigger_event_starts_countdown() {
    let mut c = controller_with("abc");
    let effects = c.apply_engine_event(AppEvent::Trigger, 0);
    assert_eq!(effects, vec![Effect::SetClickThrough(true)]);
    assert_eq!(c.state().playback, PlaybackState::Countdown { remaining_nanos: 3 * SEC });
}

#[test]
fn background_error_ends_run_and_shows_message() {
    let mut c = typing("abc");
    let effects = c.apply_engine_event(AppEvent::Error(AppError::AccessibilityDenied), 0);
    assert_eq!(effects, vec![Effect::SetClickThrough(false)]);
    assert_eq!(c.state().playback, PlaybackState::Idle);
    assert_eq!(
        c.error_banner().as_deref(),
        Some(
            "accessibility permission denied - grant it under System Settings -> Privacy & Security -> Accessibility"
        )
    );
}

#[test]
fn done_lingers_then_goes_idle() {
    let mut c = typing("abc");
    c.apply_engine_event(AppEvent::Complete, 10 * SEC);
    c.tick_done(10 * SEC + DONE_LINGER_NANOS - 1);
    assert_eq!(c.state().playback, PlaybackState::Done);
    c.tick_done(10 * SEC + DONE_LINGER_NANOS);
    assert_eq!(c.state().playback, PlaybackState::Idle);
    assert!(!c.needs_repaint());
}

#[test]
fn tick_done_outside_done_does_nothing() {
    let mut c = typing("abc");
    c.tick_done(1_000 * SEC);
    assert_eq!(c.state().playback, PlaybackState::Typing { chars_done: 0, chars_total: 3 });
}

#[test]
fn restart_after_done_clears_finish() {
    let mut c = typing("abc");
    c.apply_engine_event(AppEvent::Complete, 10 * SEC);
    let effects = c.handle_trigger(11 * SEC);
    assert_eq!(effects, vec![Effect::SetClickThrough(true)]);
    assert_eq!(c.state().playback, PlaybackState::Countdown { remaining_nanos: 3 * SEC });
    c.tick_done(20 * SEC);
    assert!(c.state().playback.is_active());
}

#[test]
fn report_platform_keeps_or_replaces_banner() {
    let mut banner = Some("earlier".to_string());
    report_platform(&mut banner, Ok(()));
    assert_eq!(banner.as_deref(), Some("earlier"));
    report_platform(&mut banner, Err(AppError::Platform("NSWindow not yet available".to_string())));
    assert_eq!(banner.as_deref(), Some("platform error: NSWindow not yet available"));
    let mut none: Option<String> = None;
    report_platform(&mut none, Ok(()));
    assert_eq!(none, None);
}

#[test]
fn settings_are_kept_in_range() {
    let mut c = Controller::new();
    c.set_typing_delay_ms(0);
    assert_eq!(c.state().typing_delay_ms, 1);
    c.set_typing_delay_ms(501);
    assert_eq!(c.state().typing_delay_ms, 500);
    c.set_typing_delay_ms(40);
    assert_eq!(c.state().typing_delay_ms, 40);
    c.set_countdown_secs(0);
    assert_eq!(c.state().countdown_secs, 1);
    c.set_countdown_secs(31);
    assert_eq!(c.state().countdown_secs, 30);
    c.set_countdown_secs(10);
    assert_eq!(c.state().countdown_secs, 10);
}

#[test]
fn countdown_length_follows_setting() {
    let mut c = controller_with("abc");
    c.set_countdown_secs(1);
    c.handle_trigger(0);
    assert_eq!(c.state().playback, PlaybackState::Countdown { remaining_nanos: SEC });
    assert_eq!(c.tick_countdown(SEC).len(), 2);
}

#[test]
fn dismiss_error_clears_banner() {
    let mut c = Controller::new();
    c.handle_trigger(0);
    c.dismiss_error();
    assert_eq!(c.error_banner(), &None);
}
