use vstd::prelude::*;

use crate::error::AppError;

verus! {

/// A request from the user interface to the typing engine.
#[derive(Debug, Clone, PartialEq, Eq)]
pub enum EngineCommand {
    /// Type `content`, waiting `delay_ms` milliseconds between keystrokes.
    Start { content: String, delay_ms: u64 },
    /// Stop the current typing run.
    Abort,
}

/// The mathematical value of an [`EngineCommand`].
pub enum CommandView {
    Start { content: Seq<char>, delay_ms: u64 },
    Abort,
}

impl View for EngineCommand {
    type V = CommandView;

    open spec fn view(&self) -> CommandView {
        match self {
            EngineCommand::Start { content, delay_ms } => CommandView::Start {
                content: content@,
                delay_ms: *delay_ms,
            },
            EngineCommand::Abort => CommandView::Abort,
        }
    }
}

/// A notification that reaches the user interface from the typing engine or
/// from the global input hook.
#[derive(Debug, Clone, PartialEq, Eq)]
pub enum AppEvent {
    /// The engine has typed `chars_done` of `chars_total` characters.
    TypingProgress { chars_done: usize, chars_total: usize },
    /// The engine has typed the whole script.
    Complete,
    /// The engine stopped on request.
    Aborted,
    /// A background component failed.
    Error(AppError),
    /// The user asked to start typing (Shift+Click).
    Trigger,
}

impl From<AppError> for AppEvent {
    fn from(err: AppError) -> (evt: AppEvent) {
        AppEvent::Error(err)
    }
}

impl vstd::std_specs::convert::FromSpecImpl<AppError> for AppEvent {
    open spec fn obeys_from_spec() -> bool {
        true
    }

    open spec fn from_spec(err: AppError) -> AppEvent {
        AppEvent::Error(err)
    }
}

} // verus!
