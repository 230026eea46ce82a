use vstd::prelude::*;

use crate::app::{Effect, EffectView, PlaybackState};
use crate::command::{AppEvent, CommandView};
use crate::config::{COUNTDOWN_DEFAULT_SECS, DONE_LINGER_NANOS, NANOS_PER_SEC, TYPING_DELAY_DEFAULT_MS};
use crate::error::{error_message, AppError};

verus! {

/// The values of a sequence of effects.
pub open spec fn effects_view(v: Seq<Effect>) -> Seq<EffectView> {
    v.map_values(|e: Effect| e@)
}

/// The text of an optional string.
pub open spec fn opt_text(o: Option<String>) -> Option<Seq<char>> {
    match o {
        Some(s) => Some(s@),
        None => None,
    }
}

/// The mathematical state of a [`Controller`].
#[verifier::ext_equal]
pub struct ControllerModel {
    pub script: Seq<char>,
    pub typing_delay_ms: u64,
    pub countdown_secs: u8,
    pub playback: PlaybackState,
    /// When the running countdown started.
    pub countdown_started_at: Option<u64>,
    /// When the last run finished.
    pub done_at: Option<u64>,
    /// The error message on show, if any.
    pub error_banner: Option<Seq<char>>,
}

/// The state a fresh controller starts in.
pub open spec fn initial_model() -> ControllerModel {
    ControllerModel {
        script: Seq::empty(),
        typing_delay_ms: TYPING_DELAY_DEFAULT_MS,
        countdown_secs: COUNTDOWN_DEFAULT_SECS,
        playback: PlaybackState::Idle,
        countdown_started_at: None,
        done_at: None,
        error_banner: None,
    }
}

/// The controller's states hold the times they depend on: a countdown has a
/// start, a finished run has an end.
pub open spec fn model_wf(m: ControllerModel) -> bool {
    &&& m.playback is Countdown ==> m.countdown_started_at is Some
    &&& m.playback is Done ==> m.done_at is Some
}

/// Time from `since` to `now` in nanoseconds, zero if `now` is earlier.
pub open spec fn elapsed_nanos(now: u64, since: u64) -> int {
    if now >= since {
        now - since
    } else {
        0
    }
}

/// The length of a countdown of `secs` seconds, in nanoseconds.
pub open spec fn countdown_total_nanos(secs: u8) -> int {
    secs * NANOS_PER_SEC
}

/// `v` raised to `lo` or lowered to `hi` where it lies outside `lo..=hi`.
pub open spec fn clamp(v: int, lo: int, hi: int) -> int {
    if v < lo {
        lo
    } else if v > hi {
        hi
    } else {
        v
    }
}

/// The message shown when a run is asked for with an empty script.
pub open spec fn empty_script_message() -> Seq<char> {
    "Script is empty"@
}

/// Going idle: no countdown, no finished run, and the window catches mouse
/// events again.
pub open spec fn idle_step(m: ControllerModel) -> (ControllerModel, Seq<EffectView>) {
    (
        ControllerModel {
            playback: PlaybackState::Idle,
            countdown_started_at: None,
            done_at: None,
            ..m
        },
        seq![EffectView::SetClickThrough(false)],
    )
}

/// Finishing a run at `now`: the finish time is kept, and the window
/// catches mouse events again.
pub open spec fn done_step(m: ControllerModel, now: u64) -> (ControllerModel, Seq<EffectView>) {
    (
        ControllerModel {
            playback: PlaybackState::Done,
            countdown_started_at: None,
            done_at: Some(now),
            ..m
        },
        seq![EffectView::SetClickThrough(false)],
    )
}

/// A request to start a run at `now`. During a run it is ignored; with an
/// empty script it only shows a message; otherwise the countdown starts in
/// full, earlier messages and finish times are cleared, and mouse events
/// start to pass through the window.
pub open spec fn trigger_step(m: ControllerModel, now: u64) -> (ControllerModel, Seq<EffectView>) {
    if m.playback.spec_is_active() {
        (m, Seq::empty())
    } else if m.script.len() == 0 {
        (ControllerModel { error_banner: Some(empty_script_message()), ..m }, Seq::empty())
    } else {
        (
            ControllerModel {
                error_banner: None,
                done_at: None,
                countdown_started_at: Some(now),
                playback: PlaybackState::Countdown {
                    remaining_nanos: countdown_total_nanos(m.countdown_secs) as u64,
                },
                ..m
            },
            seq![EffectView::SetClickThrough(true)],
        )
    }
}

/// A clock tick at `now` during a countdown. Once the whole countdown has
/// elapsed, typing starts: the window catches mouse events again and the
/// engine is told to type the script; before that, the remaining time is
/// updated. Outside a countdown nothing happens.
pub open spec fn countdown_tick_step(m: ControllerModel, now: u64) -> (ControllerModel, Seq<EffectView>) {
    match m.playback {
        PlaybackState::Countdown { .. } => match m.countdown_started_at {
            Some(started) => {
                let elapsed = elapsed_nanos(now, started);
                let total = countdown_total_nanos(m.countdown_secs);
                if elapsed >= total {
                    (
                        ControllerModel {
                            countdown_started_at: None,
                            playback: PlaybackState::Typing {
                                chars_done: 0,
                                chars_total: m.script.len() as usize,
                            },
                            ..m
                        },
                        seq![
                            EffectView::SetClickThrough(false),
                            EffectView::Send(
                                CommandView::Start { content: m.script, delay_ms: m.typing_delay_ms },
                            ),
                        ],
                    )
                } else {
                    (
                        ControllerModel {
                            playback: PlaybackState::Countdown {
                                remaining_nanos: (total - elapsed) as u64,
                            },
                            ..m
                        },
                        Seq::empty(),
                    )
                }
            },
            None => (m, Seq::empty()),
        },
        _ => (m, Seq::empty()),
    }
}

/// A clock tick at `now` after a run: once the finished state has lingered
/// long enough, the controller goes idle.
pub open spec fn done_tick_step(m: ControllerModel, now: u64) -> ControllerModel {
    match (m.playback, m.done_at) {
        (PlaybackState::Done, Some(done)) => if elapsed_nanos(now, done) >= DONE_LINGER_NANOS {
            ControllerModel { playback: PlaybackState::Idle, done_at: None, ..m }
        } else {
            m
        },
        _ => m,
    }
}

/// The abort key, `pressed` or not. During a run a press stops the engine
/// and goes idle; otherwise nothing happens.
pub open spec fn abort_key_step(m: ControllerModel, pressed: bool) -> (ControllerModel, Seq<EffectView>) {
    if m.playback.spec_is_active() && pressed {
        (
            idle_step(m).0,
            seq![EffectView::Send(CommandView::Abort), EffectView::SetClickThrough(false)],
        )
    } else {
        (m, Seq::empty())
    }
}

/// What an event from the engine or the input hook does at `now`.
pub open spec fn engine_event_step(m: ControllerModel, evt: AppEvent, now: u64) -> (
    ControllerModel,
    Seq<EffectView>,
) {
    match evt {
        AppEvent::Trigger => trigger_step(m, now),
        AppEvent::TypingProgress { chars_done, chars_total } => (
            ControllerModel {
                playback: PlaybackState::Typing { chars_done, chars_total },
                ..m
            },
            Seq::empty(),
        ),
        AppEvent::Complete => done_step(m, now),
        AppEvent::Aborted => idle_step(m),
        AppEvent::Error(err) => idle_step(
            ControllerModel { error_banner: Some(error_message(err)), ..m },
        ),
    }
}

/// What the outcome of a click-through request does: a failure is shown.
pub open spec fn platform_outcome(m: ControllerModel, r: Result<(), AppError>) -> ControllerModel {
    match r {
        Ok(_) => m,
        Err(e) => ControllerModel { error_banner: Some(error_message(e)), ..m },
    }
}

/// What the outcome of handing a command to the engine does: if the engine
/// is gone, that is shown and the run is over.
pub open spec fn send_outcome(m: ControllerModel, delivered: bool) -> ControllerModel {
    if delivered {
        m
    } else {
        ControllerModel {
            error_banner: Some(error_message(AppError::EngineGone)),
            playback: PlaybackState::Idle,
            ..m
        }
    }
}

} // verus!
