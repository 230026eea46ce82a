use vstd::prelude::*;

use crate::command::{AppEvent, CommandView, EngineCommand};
use crate::config::{
    COUNTDOWN_DEFAULT_SECS, COUNTDOWN_MAX_SECS, COUNTDOWN_MIN_SECS, DONE_LINGER_NANOS,
    NANOS_PER_SEC, TYPING_DELAY_DEFAULT_MS, TYPING_DELAY_MAX_MS, TYPING_DELAY_MIN_MS,
};
use crate::error::{error_message, AppError};
use crate::model::{
    abort_key_step, clamp, countdown_tick_step, done_step, done_tick_step, effects_view,
    elapsed_nanos,
    engine_event_step, idle_step, initial_model, opt_text, platform_outcome, send_outcome,
    trigger_step, ControllerModel,
};

verus! {

/// Where a typing run stands.
#[derive(Debug, Clone, Copy, PartialEq, Eq, Structural)]
pub enum PlaybackState {
    /// Nothing is happening.
    Idle,
    /// Typing starts when the countdown reaches zero; `remaining_nanos` is
    /// what is left of it.
    Countdown { remaining_nanos: u64 },
    /// The engine is typing.
    Typing { chars_done: usize, chars_total: usize },
    /// The run finished; the state lingers briefly before going idle.
    Done,
}

impl Default for PlaybackState {
    fn default() -> (s: PlaybackState)
        ensures
            s == PlaybackState::Idle,
    {
        PlaybackState::Idle
    }
}

impl PlaybackState {
    /// A run is under way: counting down or typing.
    pub open spec fn spec_is_active(&self) -> bool {
        self is Countdown || self is Typing
    }

    /// Whether a run is under way (counting down or typing).
    #[verifier::when_used_as_spec(spec_is_active)]
    pub fn is_active(&self) -> (b: bool)
        ensures
            b == self.spec_is_active(),
    {
        match self {
            PlaybackState::Countdown { .. } | PlaybackState::Typing { .. } => true,
            _ => false,
        }
    }

    /// While typing, the fraction of the script already typed, as a
    /// numerator and a denominator that is never zero: the characters typed
    /// and the characters in total, the latter raised to one when it is zero.
    pub fn progress_fraction(&self) -> (r: Option<(usize, usize)>)
        ensures
            match *self {
                PlaybackState::Typing { chars_done, chars_total } => r == Some(
                    (chars_done, if chars_total >= 1 { chars_total } else { 1usize }),
                ),
                _ => r is None,
            },
    {
        match *self {
            PlaybackState::Typing { chars_done, chars_total } => {
                let total = if chars_total >= 1 { chars_total } else { 1 };
                Some((chars_done, total))
            },
            _ => None,
        }
    }
}

/// The settings and the playback state that the user interface shows.
#[derive(Debug)]
pub struct AppState {
    pub script_content: String,
    pub typing_delay_ms: u64,
    pub countdown_secs: u8,
    pub playback: PlaybackState,
}

impl Default for AppState {
    fn default() -> (s: AppState)
        ensures
            s.script_content@ == Seq::<char>::empty(),
            s.typing_delay_ms == TYPING_DELAY_DEFAULT_MS,
            s.countdown_secs == COUNTDOWN_DEFAULT_SECS,
            s.playback == PlaybackState::Idle,
    {
        AppState {
            script_content: String::new(),
            typing_delay_ms: TYPING_DELAY_DEFAULT_MS,
            countdown_secs: COUNTDOWN_DEFAULT_SECS,
            playback: PlaybackState::Idle,
        }
    }
}

/// An outside operation that the controller asks its host to perform.
#[derive(Debug, Clone, PartialEq, Eq)]
pub enum Effect {
    /// Let mouse events pass through the window (`true`) or not (`false`).
    SetClickThrough(bool),
    /// Hand a command to the typing engine.
    Send(EngineCommand),
}

/// The mathematical value of an [`Effect`].
pub enum EffectView {
    SetClickThrough(bool),
    Send(CommandView),
}

impl View for Effect {
    type V = EffectView;

    open spec fn view(&self) -> EffectView {
        match self {
            Effect::SetClickThrough(b) => EffectView::SetClickThrough(*b),
            Effect::Send(cmd) => EffectView::Send(cmd@),
        }
    }
}

/// Shows the message of a failed platform call in `banner`; a successful
/// call leaves `banner` as it was.
pub fn report_platform(banner: &mut Option<String>, r: Result<(), AppError>)
    ensures
        match r {
            Ok(_) => *final(banner) == *old(banner),
            Err(e) => opt_text(*final(banner)) == Some(error_message(e)),
        },
{
    if let Err(err) = r {
        *banner = Some(err.message());
    }
}

/// The decisions behind the user interface: it holds the settings, the
/// playback state, the times that state depends on and the error on show,
/// and turns events, clock ticks and key presses into a new state and the
/// outside operations (effects) its host must perform, in order. The host
/// reports the outcome of each effect back.
///
/// Timestamps count nanoseconds on a monotonic clock.
pub struct Controller {
    state: AppState,
    countdown_started_at: Option<u64>,
    done_at: Option<u64>,
    error_banner: Option<String>,
}

impl View for Controller {
    type V = ControllerModel;

    closed spec fn view(&self) -> ControllerModel {
        ControllerModel {
            script: self.state.script_content@,
            typing_delay_ms: self.state.typing_delay_ms,
            countdown_secs: self.state.countdown_secs,
            playback: self.state.playback,
            countdown_started_at: self.countdown_started_at,
            done_at: self.done_at,
            error_banner: opt_text(self.error_banner),
        }
    }
}

fn single_effect(e: Effect) -> (v: Vec<Effect>)
    ensures
        effects_view(v@) == seq![e@],
{
    let mut v = Vec::new();
    v.push(e);
    proof {
        assert(effects_view(v@) =~= seq![e@]);
    }
    v
}

fn no_effects() -> (v: Vec<Effect>)
    ensures
        effects_view(v@) == Seq::<EffectView>::empty(),
{
    let v = Vec::new();
    proof {
        assert(effects_view(v@) =~= Seq::<EffectView>::empty());
    }
    v
}

/// Nanoseconds from `since` to `now`, zero if `now` is earlier.
fn saturating_elapsed(now: u64, since: u64) -> (d: u64)
    ensures
        d == elapsed_nanos(now, since),
{
    if now >= since {
        now - since
    } else {
        0
    }
}

impl Controller {
    /// A controller with the default settings, an empty script, nothing
    /// running and no error on show.
    pub fn new() -> (c: Controller)
        ensures
            c@ == initial_model(),
    {
        Controller {
            state: AppState::default(),
            countdown_started_at: None,
            done_at: None,
            error_banner: None,
        }
    }

    /// The settings and playback state.
    pub fn state(&self) -> (s: &AppState)
        ensures
            s.script_content@ == self@.script,
            s.typing_delay_ms == self@.typing_delay_ms,
            s.countdown_secs == self@.countdown_secs,
            s.playback == self@.playback,
    {
        &self.state
    }

    /// The error message on show, if any.
    pub fn error_banner(&self) -> (b: &Option<String>)
        ensures
            opt_text(*b) == self@.error_banner,
    {
        &self.error_banner
    }

    /// Replaces the script.
    pub fn set_script(&mut self, script: String)
        ensures
            final(self)@ == (ControllerModel { script: script@, ..old(self)@ }),
    {
        self.state.script_content = script;
    }

    /// Sets the keystroke delay, brought into the accepted range.
    pub fn set_typing_delay_ms(&mut self, ms: u64)
        ensures
            final(self)@ == (ControllerModel {
                typing_delay_ms: clamp(ms as int, TYPING_DELAY_MIN_MS as int, TYPING_DELAY_MAX_MS as int) as u64,
                ..old(self)@
            }),
            TYPING_DELAY_MIN_MS <= ms <= TYPING_DELAY_MAX_MS ==> final(self)@.typing_delay_ms == ms,
            ms < TYPING_DELAY_MIN_MS ==> final(self)@.typing_delay_ms == TYPING_DELAY_MIN_MS,
            ms > TYPING_DELAY_MAX_MS ==> final(self)@.typing_delay_ms == TYPING_DELAY_MAX_MS,
    {
        let v = if ms < TYPING_DELAY_MIN_MS {
            TYPING_DELAY_MIN_MS
        } else if ms > TYPING_DELAY_MAX_MS {
            TYPING_DELAY_MAX_MS
        } else {
            ms
        };
        self.state.typing_delay_ms = v;
    }

    /// Sets the countdown length, brought into the accepted range.
    pub fn set_countdown_secs(&mut self, secs: u8)
        ensures
            final(self)@ == (ControllerModel {
                countdown_secs: clamp(secs as int, COUNTDOWN_MIN_SECS as int, COUNTDOWN_MAX_SECS as int) as u8,
                ..old(self)@
            }),
            COUNTDOWN_MIN_SECS <= secs <= COUNTDOWN_MAX_SECS ==> final(self)@.countdown_secs == secs,
            secs < COUNTDOWN_MIN_SECS ==> final(self)@.countdown_secs == COUNTDOWN_MIN_SECS,
            secs > COUNTDOWN_MAX_SECS ==> final(self)@.countdown_secs == COUNTDOWN_MAX_SECS,
    {
        let v = if secs < COUNTDOWN_MIN_SECS {
            COUNTDOWN_MIN_SECS
        } else if secs > COUNTDOWN_MAX_SECS {
            COUNTDOWN_MAX_SECS
        } else {
            secs
        };
        self.state.countdown_secs = v;
    }

    /// Removes the error message on show.
    pub fn dismiss_error(&mut self)
        ensures
            final(self)@ == (ControllerModel { error_banner: None, ..old(self)@ }),
    {
        self.error_banner = None;
    }

    /// Whether the interface must keep redrawing: during a run, and while
    /// the finished state is on show.
    pub fn needs_repaint(&self) -> (b: bool)
        ensures
            b == (self@.playback.spec_is_active() || self@.playback is Done),
    {
        self.state.playback.is_active() || matches!(self.state.playback, PlaybackState::Done)
    }

    /// Goes idle.
    pub fn transition_to_idle(&mut self) -> (effects: Vec<Effect>)
        ensures
            final(self)@ == idle_step(old(self)@).0,
            effects_view(effects@) == idle_step(old(self)@).1,
    {
        self.state.playback = PlaybackState::Idle;
        self.countdown_started_at = None;
        self.done_at = None;
        single_effect(Effect::SetClickThrough(false))
    }

    /// Records that the run finished at `now`.
    pub fn transition_to_done(&mut self, now: u64) -> (effects: Vec<Effect>)
        ensures
            final(self)@ == done_step(old(self)@, now).0,
            effects_view(effects@) == done_step(old(self)@, now).1,
    {
        self.state.playback = PlaybackState::Done;
        self.countdown_started_at = None;
        self.done_at = Some(now);
        single_effect(Effect::SetClickThrough(false))
    }

    /// A request at `now` to start a run.
    pub fn handle_trigger(&mut self, now: u64) -> (effects: Vec<Effect>)
        ensures
            final(self)@ == trigger_step(old(self)@, now).0,
            effects_view(effects@) == trigger_step(old(self)@, now).1,
    {
        if self.state.playback.is_active() {
            return no_effects();
        }
        if self.state.script_content.as_str().is_empty() {
            self.error_banner = Some("Script is empty".to_owned());
            proof {
                reveal_strlit("Script is empty");
            }
            return no_effects();
        }
        self.error_banner = None;
        self.done_at = None;
        self.countdown_started_at = Some(now);
        let total = (self.state.countdown_secs as u64) * NANOS_PER_SEC;
        self.state.playback = PlaybackState::Countdown { remaining_nanos: total };
        single_effect(Effect::SetClickThrough(true))
    }

    /// A clock tick at `now` while counting down.
    pub fn tick_countdown(&mut self, now: u64) -> (effects: Vec<Effect>)
        ensures
            final(self)@ == countdown_tick_step(old(self)@, now).0,
            effects_view(effects@) == countdown_tick_step(old(self)@, now).1,
    {
        if !matches!(self.state.playback, PlaybackState::Countdown { .. }) {
            return no_effects();
        }
        let started = match self.countdown_started_at {
            Some(t) => t,
            None => return no_effects(),
        };
        let total = (self.state.countdown_secs as u64) * NANOS_PER_SEC;
        let elapsed = saturating_elapsed(now, started);
        if elapsed >= total {
            self.countdown_started_at = None;
            let chars_total = self.state.script_content.as_str().unicode_len();
            self.state.playback = PlaybackState::Typing { chars_done: 0, chars_total };
            let mut effects = Vec::new();
            effects.push(Effect::SetClickThrough(false));
            effects.push(
                Effect::Send(
                    EngineCommand::Start {
                        content: self.state.script_content.clone(),
                        delay_ms: self.state.typing_delay_ms,
                    },
                ),
            );
            proof {
                assert(effects_view(effects@) =~= countdown_tick_step(old(self)@, now).1);
            }
            effects
        } else {
            self.state.playback = PlaybackState::Countdown { remaining_nanos: total - elapsed };
            no_effects()
        }
    }

    /// A clock tick at `now` while the finished state is on show.
    pub fn tick_done(&mut self, now: u64)
        ensures
            final(self)@ == done_tick_step(old(self)@, now),
    {
        if !matches!(self.state.playback, PlaybackState::Done) {
            return ;
        }
        if let Some(done_at) = self.done_at {
            if saturating_elapsed(now, done_at) >= DONE_LINGER_NANOS {
                self.state.playback = PlaybackState::Idle;
                self.done_at = None;
            }
        }
    }

    /// The abort key, `pressed` or not, as of this frame.
    pub fn handle_abort_key(&mut self, pressed: bool) -> (effects: Vec<Effect>)
        ensures
            final(self)@ == abort_key_step(old(self)@, pressed).0,
            effects_view(effects@) == abort_key_step(old(self)@, pressed).1,
    {
        if !self.state.playback.is_active() || !pressed {
            return no_effects();
        }
        let mut effects = Vec::new();
        effects.push(Effect::Send(EngineCommand::Abort));
        let mut rest = self.transition_to_idle();
        proof {
            assert(effects_view(rest@).len() == 1);
            assert(effects_view(rest@)[0] == rest@[0]@);
        }
        effects.append(&mut rest);
        proof {
            assert(effects_view(effects@) =~= abort_key_step(old(self)@, pressed).1);
        }
        effects
    }

    /// An event from the engine or the input hook, received at `now`.
    pub fn apply_engine_event(&mut self, evt: AppEvent, now: u64) -> (effects: Vec<Effect>)
        ensures
            final(self)@ == engine_event_step(old(self)@, evt, now).0,
            effects_view(effects@) == engine_event_step(old(self)@, evt, now).1,
    {
        match evt {
            AppEvent::Trigger => self.handle_trigger(now),
            AppEvent::TypingProgress { chars_done, chars_total } => {
                self.state.playback = PlaybackState::Typing { chars_done, chars_total };
                no_effects()
            },
            AppEvent::Complete => self.transition_to_done(now),
            AppEvent::Aborted => self.transition_to_idle(),
            AppEvent::Error(err) => {
                self.error_banner = Some(err.message());
                self.transition_to_idle()
            },
        }
    }

    /// Takes in the outcome of a [`Effect::SetClickThrough`] request.
    pub fn report_platform_result(&mut self, r: Result<(), AppError>)
        ensures
            final(self)@ == platform_outcome(old(self)@, r),
    {
        report_platform(&mut self.error_banner, r);
    }

    /// Takes in whether an [`Effect::Send`] reached the engine.
    pub fn report_send_result(&mut self, delivered: bool)
        ensures
            final(self)@ == send_outcome(old(self)@, delivered),
    {
        if !delivered {
            self.error_banner = Some(AppError::EngineGone.message());
            self.state.playback = PlaybackState::Idle;
        }
    }
}

} // verus!
