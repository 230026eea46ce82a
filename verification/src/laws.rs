//! Properties of the controller that span several operations.

use vstd::prelude::*;

use crate::app::{EffectView, PlaybackState};
use crate::command::{AppEvent, CommandView};
use crate::config::DONE_LINGER_NANOS;
use crate::error::{error_message, AppError};
use crate::model::{
    abort_key_step, countdown_tick_step, countdown_total_nanos, done_step, done_tick_step,
    elapsed_nanos, engine_event_step, initial_model, model_wf, platform_outcome, send_outcome,
    trigger_step, ControllerModel,
};

verus! {

/// Whether mouse events pass through the window after the click-through
/// requests among `effects` have been carried out, starting from `before`.
pub open spec fn click_through_after(before: bool, effects: Seq<EffectView>) -> bool
    decreases effects.len(),
{
    if effects.len() == 0 {
        before
    } else {
        match effects.last() {
            EffectView::SetClickThrough(b) => b,
            _ => click_through_after(before, effects.drop_last()),
        }
    }
}

/// A fresh controller is well formed, and every operation keeps it so: a
/// countdown on show always has its start time, a finished run its end time.
pub proof fn lemma_operations_keep_wf(
    m: ControllerModel,
    now: u64,
    pressed: bool,
    evt: AppEvent,
    r: Result<(), AppError>,
    delivered: bool,
)
    requires
        model_wf(m),
    ensures
        model_wf(initial_model()),
        model_wf(trigger_step(m, now).0),
        model_wf(countdown_tick_step(m, now).0),
        model_wf(done_tick_step(m, now)),
        model_wf(abort_key_step(m, pressed).0),
        model_wf(engine_event_step(m, evt, now).0),
        model_wf(platform_outcome(m, r)),
        model_wf(send_outcome(m, delivered)),
{
}

/// Starting a run. With nothing running and a script to type, a trigger at
/// `t0` starts a countdown of the configured length and lets mouse events
/// through; a tick at `t1` then starts typing the whole script with the
/// configured delay once that length has elapsed since `t0`, and otherwise
/// shows the time still to go.
pub proof fn lemma_trigger_then_tick(m: ControllerModel, t0: u64, t1: u64)
    requires
        !m.playback.spec_is_active(),
        m.script.len() > 0,
    ensures
        trigger_step(m, t0).1 == seq![EffectView::SetClickThrough(true)],
        trigger_step(m, t0).0.playback == (PlaybackState::Countdown {
            remaining_nanos: countdown_total_nanos(m.countdown_secs) as u64,
        }),
        trigger_step(m, t0).0.error_banner is None,
        elapsed_nanos(t1, t0) >= countdown_total_nanos(m.countdown_secs) ==> {
            &&& countdown_tick_step(trigger_step(m, t0).0, t1).0.playback == (PlaybackState::Typing {
                chars_done: 0,
                chars_total: m.script.len() as usize,
            })
            &&& countdown_tick_step(trigger_step(m, t0).0, t1).1 == seq![
                EffectView::SetClickThrough(false),
                EffectView::Send(CommandView::Start { content: m.script, delay_ms: m.typing_delay_ms }),
            ]
        },
        elapsed_nanos(t1, t0) < countdown_total_nanos(m.countdown_secs) ==> {
            &&& countdown_tick_step(trigger_step(m, t0).0, t1).0.playback == (PlaybackState::Countdown {
                remaining_nanos: (countdown_total_nanos(m.countdown_secs) - elapsed_nanos(t1, t0)) as u64,
            })
            &&& countdown_tick_step(trigger_step(m, t0).0, t1).1 == Seq::<EffectView>::empty()
        },
{
}

/// A trigger never disturbs a run: during a countdown or while typing it
/// changes nothing and asks for nothing, so a second trigger right after a
/// successful one is ignored.
pub proof fn lemma_trigger_ignored_during_run(m: ControllerModel, t0: u64, t1: u64)
    ensures
        m.playback.spec_is_active() ==> trigger_step(m, t1) == (m, Seq::<EffectView>::empty()),
        (!m.playback.spec_is_active() && m.script.len() > 0) ==> trigger_step(
            trigger_step(m, t0).0,
            t1,
        ) == (trigger_step(m, t0).0, Seq::<EffectView>::empty()),
{
}

/// An empty script never starts a run: the trigger only shows why.
pub proof fn lemma_empty_script_never_runs(m: ControllerModel, now: u64)
    requires
        !m.playback.spec_is_active(),
        m.script.len() == 0,
    ensures
        trigger_step(m, now).0.playback == m.playback,
        trigger_step(m, now).0.error_banner == Some("Script is empty"@),
        trigger_step(m, now).1 == Seq::<EffectView>::empty(),
{
}

/// The countdown on show lies between zero (excluded) and the configured
/// length, never grows as time goes on, and once typing has started further
/// ticks change nothing.
pub proof fn lemma_countdown_never_grows(m: ControllerModel, t1: u64, t2: u64)
    requires
        m.playback is Countdown,
        m.countdown_started_at is Some,
        t1 <= t2,
    ensures
        countdown_tick_step(m, t1).0.playback is Countdown ==> {
            &&& 0 < countdown_tick_step(m, t1).0.playback->remaining_nanos
            &&& countdown_tick_step(m, t1).0.playback->remaining_nanos <= countdown_total_nanos(
                m.countdown_secs,
            )
        },
        (countdown_tick_step(m, t1).0.playback is Countdown && countdown_tick_step(
            countdown_tick_step(m, t1).0,
            t2,
        ).0.playback is Countdown) ==> countdown_tick_step(
            countdown_tick_step(m, t1).0,
            t2,
        ).0.playback->remaining_nanos <= countdown_tick_step(m, t1).0.playback->remaining_nanos,
        countdown_tick_step(m, t1).0.playback is Typing ==> countdown_tick_step(
            countdown_tick_step(m, t1).0,
            t2,
        ) == (countdown_tick_step(m, t1).0, Seq::<EffectView>::empty()),
{
}

/// The abort key ends any run: the engine is told to stop, the window
/// catches mouse events again and the controller is idle, whatever the
/// outcome of those two requests. Outside a run, or without a press,
/// nothing happens.
pub proof fn lemma_abort_ends_run(
    m: ControllerModel,
    pressed: bool,
    delivered: bool,
    r: Result<(), AppError>,
)
    ensures
        (m.playback.spec_is_active() && pressed) ==> {
            &&& abort_key_step(m, pressed).1 == seq![
                EffectView::Send(CommandView::Abort),
                EffectView::SetClickThrough(false),
            ]
            &&& platform_outcome(send_outcome(abort_key_step(m, pressed).0, delivered), r).playback
                == PlaybackState::Idle
            &&& platform_outcome(
                send_outcome(abort_key_step(m, pressed).0, delivered),
                r,
            ).countdown_started_at is None
            &&& platform_outcome(send_outcome(abort_key_step(m, pressed).0, delivered), r).done_at is None
        },
        !(m.playback.spec_is_active() && pressed) ==> abort_key_step(m, pressed) == (
            m,
            Seq::<EffectView>::empty(),
        ),
{
}

/// A finished run stays on show for the linger time and then goes idle:
/// a tick at `t` after a completion at `t_done` returns to idle exactly when
/// the linger time has elapsed.
pub proof fn lemma_done_lingers(m: ControllerModel, t_done: u64, t: u64)
    ensures
        done_tick_step(done_step(m, t_done).0, t).playback == (if elapsed_nanos(t, t_done)
            >= DONE_LINGER_NANOS {
            PlaybackState::Idle
        } else {
            PlaybackState::Done
        }),
{
}

/// Mouse events pass through the window exactly while a countdown is on
/// show: if that holds before an operation, the click-through requests the
/// operation makes keep it true after it. The one exception is a progress
/// report from the engine that arrives during a countdown, which switches
/// to typing without touching the window. Reporting outcomes never starts
/// or ends a countdown.
pub proof fn lemma_click_through_only_during_countdown(
    m: ControllerModel,
    now: u64,
    pressed: bool,
    evt: AppEvent,
    r: Result<(), AppError>,
    delivered: bool,
)
    requires
        !(m.playback is Countdown && evt is TypingProgress),
    ensures
        click_through_after(m.playback is Countdown, trigger_step(m, now).1) == trigger_step(
            m,
            now,
        ).0.playback is Countdown,
        click_through_after(m.playback is Countdown, countdown_tick_step(m, now).1)
            == countdown_tick_step(m, now).0.playback is Countdown,
        (m.playback is Countdown) == done_tick_step(m, now).playback is Countdown,
        click_through_after(m.playback is Countdown, abort_key_step(m, pressed).1)
            == abort_key_step(m, pressed).0.playback is Countdown,
        click_through_after(m.playback is Countdown, engine_event_step(m, evt, now).1)
            == engine_event_step(m, evt, now).0.playback is Countdown,
        (m.playback is Countdown) == platform_outcome(m, r).playback is Countdown,
        send_outcome(m, delivered).playback is Countdown ==> m.playback is Countdown,
{
    reveal_with_fuel(click_through_after, 3);
}

/// If the engine is gone when typing should start, the run ends at once and
/// the user is told so, whatever became of the click-through request.
pub proof fn lemma_engine_gone_ends_run(m: ControllerModel, now: u64, r: Result<(), AppError>)
    requires
        m.playback is Countdown,
        m.countdown_started_at is Some,
        elapsed_nanos(now, m.countdown_started_at->0) >= countdown_total_nanos(m.countdown_secs),
    ensures
        send_outcome(platform_outcome(countdown_tick_step(m, now).0, r), false).playback
            == PlaybackState::Idle,
        send_outcome(platform_outcome(countdown_tick_step(m, now).0, r), false).error_banner
            == Some(error_message(AppError::EngineGone)),
        send_outcome(platform_outcome(countdown_tick_step(m, now).0, r), false).countdown_started_at is None,
{
}

/// A failure reported from the background ends any run and puts its message
/// on show; only a failure of the window request that follows can replace
/// that message.
pub proof fn lemma_background_error_ends_run(m: ControllerModel, err: AppError, now: u64)
    ensures
        engine_event_step(m, AppEvent::Error(err), now).0.playback == PlaybackState::Idle,
        engine_event_step(m, AppEvent::Error(err), now).0.error_banner == Some(error_message(err)),
        engine_event_step(m, AppEvent::Error(err), now).1 == seq![EffectView::SetClickThrough(false)],
        platform_outcome(engine_event_step(m, AppEvent::Error(err), now).0, Ok(())).error_banner
            == Some(error_message(err)),
{
}

} // verus!
