//! What each operation of the controller does, stated for every input in
//! terms of the input state, the arguments and the result.

use vstd::prelude::*;

use crate::app::{EffectView, PlaybackState};
use crate::command::{AppEvent, CommandView};
use crate::config::{DONE_LINGER_NANOS, NANOS_PER_SEC};
use crate::error::{error_message, AppError};
use crate::model::{
    abort_key_step, clamp, countdown_tick_step, done_step, done_tick_step, engine_event_step,
    idle_step, platform_outcome, send_outcome, trigger_step, ControllerModel,
};

verus! {

/// Whether `m` and `n` agree on everything but the playback state and its
/// two timestamps: the script, the settings and the message on show.
pub open spec fn same_settings_and_banner(m: ControllerModel, n: ControllerModel) -> bool {
    &&& n.script == m.script
    &&& n.typing_delay_ms == m.typing_delay_ms
    &&& n.countdown_secs == m.countdown_secs
    &&& n.error_banner == m.error_banner
}

/// Clamping keeps a value that lies in range and otherwise gives the nearer
/// end of the range; a setting in range is therefore stored as given.
pub proof fn lemma_clamp_keeps_values_in_range(v: int, lo: int, hi: int)
    requires
        lo <= hi,
    ensures
        lo <= v <= hi ==> clamp(v, lo, hi) == v,
        v < lo ==> clamp(v, lo, hi) == lo,
        v > hi ==> clamp(v, lo, hi) == hi,
        lo <= clamp(v, lo, hi) <= hi,
{
}

/// Going idle ends whatever ran, forgets both timestamps, keeps script,
/// settings and message, and makes the window catch the mouse again.
pub proof fn lemma_going_idle(m: ControllerModel)
    ensures
        idle_step(m).0.playback == PlaybackState::Idle,
        idle_step(m).0.countdown_started_at is None,
        idle_step(m).0.done_at is None,
        same_settings_and_banner(m, idle_step(m).0),
        idle_step(m).1 == seq![EffectView::SetClickThrough(false)],
{
}

/// Finishing at `now` shows the finished state, records `now` as its end,
/// forgets any countdown start, keeps script, settings and message, and
/// makes the window catch the mouse again.
pub proof fn lemma_finishing(m: ControllerModel, now: u64)
    ensures
        done_step(m, now).0.playback == PlaybackState::Done,
        done_step(m, now).0.done_at == Some(now),
        done_step(m, now).0.countdown_started_at is None,
        same_settings_and_banner(m, done_step(m, now).0),
        done_step(m, now).1 == seq![EffectView::SetClickThrough(false)],
{
}

/// A trigger at `now`: during a run it does nothing; with an empty script it
/// only puts "Script is empty" on show; otherwise a full countdown of the
/// configured length starts at `now`, the message and the finish time are
/// cleared, the script and settings are kept, and mouse events start to
/// pass through the window.
pub proof fn lemma_trigger(m: ControllerModel, now: u64)
    ensures
        m.playback is Countdown || m.playback is Typing ==> trigger_step(m, now) == (
            m,
            Seq::<EffectView>::empty(),
        ),
        !(m.playback is Countdown || m.playback is Typing) && m.script.len() == 0 ==> {
            &&& trigger_step(m, now).0 == (ControllerModel {
                error_banner: Some("Script is empty"@),
                ..m
            })
            &&& trigger_step(m, now).1 == Seq::<EffectView>::empty()
        },
        !(m.playback is Countdown || m.playback is Typing) && m.script.len() > 0 ==> {
            &&& trigger_step(m, now).0.playback == (PlaybackState::Countdown {
                remaining_nanos: (m.countdown_secs * NANOS_PER_SEC) as u64,
            })
            &&& trigger_step(m, now).0.countdown_started_at == Some(now)
            &&& trigger_step(m, now).0.done_at is None
            &&& trigger_step(m, now).0.error_banner is None
            &&& trigger_step(m, now).0.script == m.script
            &&& trigger_step(m, now).0.typing_delay_ms == m.typing_delay_ms
            &&& trigger_step(m, now).0.countdown_secs == m.countdown_secs
            &&& trigger_step(m, now).1 == seq![EffectView::SetClickThrough(true)]
        },
{
}

/// A clock tick at `now`, for every state. Outside a countdown, or without
/// a recorded start, nothing changes. During a countdown started at `t0`,
/// once the configured length has passed since `t0` — whatever the
/// countdown showed before — typing of the whole script starts: the engine
/// gets the script and the configured delay, after the window is told to
/// catch the mouse again. Before that, the time still to go is shown (the
/// full length if the clock reads earlier than `t0`) and nothing else
/// changes.
pub proof fn lemma_countdown_tick(m: ControllerModel, now: u64)
    ensures
        !(m.playback is Countdown) || m.countdown_started_at is None ==> countdown_tick_step(
            m,
            now,
        ) == (m, Seq::<EffectView>::empty()),
        m.playback is Countdown && m.countdown_started_at is Some && (if now
            >= m.countdown_started_at->0 {
            now - m.countdown_started_at->0
        } else {
            0
        }) >= m.countdown_secs * NANOS_PER_SEC ==> {
            &&& countdown_tick_step(m, now).1 == seq![
                EffectView::SetClickThrough(false),
                EffectView::Send(CommandView::Start { content: m.script, delay_ms: m.typing_delay_ms }),
            ]
            &&& countdown_tick_step(m, now).0.playback == (PlaybackState::Typing {
                chars_done: 0,
                chars_total: m.script.len() as usize,
            })
            &&& countdown_tick_step(m, now).0.countdown_started_at is None
            &&& countdown_tick_step(m, now).0.done_at == m.done_at
            &&& same_settings_and_banner(m, countdown_tick_step(m, now).0)
        },
        m.playback is Countdown && m.countdown_started_at is Some && now
            >= m.countdown_started_at->0 && now - m.countdown_started_at->0 < m.countdown_secs
            * NANOS_PER_SEC ==> countdown_tick_step(m, now) == (
            ControllerModel {
                playback: PlaybackState::Countdown {
                    remaining_nanos: (m.countdown_secs * NANOS_PER_SEC - (now
                        - m.countdown_started_at->0)) as u64,
                },
                ..m
            },
            Seq::<EffectView>::empty(),
        ),
        m.playback is Countdown && m.countdown_started_at is Some && now
            < m.countdown_started_at->0 && m.countdown_secs > 0 ==> countdown_tick_step(m, now)
            == (
            ControllerModel {
                playback: PlaybackState::Countdown {
                    remaining_nanos: (m.countdown_secs * NANOS_PER_SEC) as u64,
                },
                ..m
            },
            Seq::<EffectView>::empty(),
        ),
{
}

/// A clock tick at `now` after a run: a finished state that ended at `d`
/// goes idle, forgetting `d`, once the linger time has passed since `d`;
/// every other state, and a finished state still lingering, is left exactly
/// as it was.
pub proof fn lemma_done_tick(m: ControllerModel, now: u64)
    ensures
        !(m.playback is Done) ==> done_tick_step(m, now) == m,
        m.done_at is None ==> done_tick_step(m, now) == m,
        m.playback is Done && m.done_at is Some && now >= m.done_at->0 && now - m.done_at->0
            >= DONE_LINGER_NANOS ==> done_tick_step(m, now) == (ControllerModel {
            playback: PlaybackState::Idle,
            done_at: None,
            ..m
        }),
        m.playback is Done && m.done_at is Some && !(now >= m.done_at->0 && now - m.done_at->0
            >= DONE_LINGER_NANOS) ==> done_tick_step(m, now) == m,
{
}

/// The abort key: a press during a countdown or while typing tells the
/// engine to stop, then makes the window catch the mouse again, and leaves
/// the controller idle with both timestamps forgotten and script, settings
/// and message kept. Otherwise nothing happens.
pub proof fn lemma_abort_key(m: ControllerModel, pressed: bool)
    ensures
        pressed && (m.playback is Countdown || m.playback is Typing) ==> {
            &&& abort_key_step(m, pressed).1 == seq![
                EffectView::Send(CommandView::Abort),
                EffectView::SetClickThrough(false),
            ]
            &&& abort_key_step(m, pressed).0.playback == PlaybackState::Idle
            &&& abort_key_step(m, pressed).0.countdown_started_at is None
            &&& abort_key_step(m, pressed).0.done_at is None
            &&& same_settings_and_banner(m, abort_key_step(m, pressed).0)
        },
        !(pressed && (m.playback is Countdown || m.playback is Typing)) ==> abort_key_step(
            m,
            pressed,
        ) == (m, Seq::<EffectView>::empty()),
{
}

/// Events from the engine and the input hook, received at `now`, whatever
/// the state: a trigger acts exactly as a direct trigger at `now`; a
/// progress report shows that progress and changes nothing else; completion
/// always shows the finished state ended at `now` and makes the window
/// catch the mouse again; an abort goes idle; an error puts its message on
/// show and goes idle.
pub proof fn lemma_engine_events(
    m: ControllerModel,
    now: u64,
    chars_done: usize,
    chars_total: usize,
    err: AppError,
)
    ensures
        engine_event_step(m, AppEvent::Trigger, now) == trigger_step(m, now),
        engine_event_step(m, AppEvent::TypingProgress { chars_done, chars_total }, now) == (
            ControllerModel { playback: PlaybackState::Typing { chars_done, chars_total }, ..m },
            Seq::<EffectView>::empty(),
        ),
        engine_event_step(m, AppEvent::Complete, now).0.playback == PlaybackState::Done,
        engine_event_step(m, AppEvent::Complete, now).0.done_at == Some(now),
        engine_event_step(m, AppEvent::Complete, now).0.countdown_started_at is None,
        same_settings_and_banner(m, engine_event_step(m, AppEvent::Complete, now).0),
        engine_event_step(m, AppEvent::Complete, now).1 == seq![EffectView::SetClickThrough(false)],
        engine_event_step(m, AppEvent::Aborted, now).0.playback == PlaybackState::Idle,
        engine_event_step(m, AppEvent::Aborted, now).0.countdown_started_at is None,
        engine_event_step(m, AppEvent::Aborted, now).0.done_at is None,
        same_settings_and_banner(m, engine_event_step(m, AppEvent::Aborted, now).0),
        engine_event_step(m, AppEvent::Aborted, now).1 == seq![EffectView::SetClickThrough(false)],
        engine_event_step(m, AppEvent::Error(err), now).0 == (ControllerModel {
            playback: PlaybackState::Idle,
            countdown_started_at: None,
            done_at: None,
            error_banner: Some(error_message(err)),
            ..m
        }),
        engine_event_step(m, AppEvent::Error(err), now).1 == seq![
            EffectView::SetClickThrough(false),
        ],
{
}

/// Outcomes: a successful window request changes nothing and a failed one
/// only puts its message on show; a delivered command changes nothing, and
/// an undelivered one shows that the engine is gone and ends the run.
pub proof fn lemma_outcomes(m: ControllerModel, e: AppError)
    ensures
        platform_outcome(m, Ok(())) == m,
        platform_outcome(m, Err(e)) == (ControllerModel {
            error_banner: Some(error_message(e)),
            ..m
        }),
        send_outcome(m, true) == m,
        send_outcome(m, false) == (ControllerModel {
            playback: PlaybackState::Idle,
            error_banner: Some("engine thread is no longer running"@),
            ..m
        }),
{
}

} // verus!
