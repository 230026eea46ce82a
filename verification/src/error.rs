use vstd::prelude::*;

verus! {

/// Errors that the application reports to its user.
///
/// The variants that wrap a failure of the input-simulation backend carry
/// that failure's description as text.
#[derive(Debug, Clone, PartialEq, Eq)]
pub enum AppError {
    /// Simulating a key press failed.
    Input(String),
    /// The input simulator could not be created.
    InputInit(String),
    /// A call into the windowing platform failed.
    Platform(String),
    /// The operating system denied the accessibility permission.
    AccessibilityDenied,
    /// The background typing engine has stopped.
    EngineGone,
}

/// The text shown to the user for an error.
pub open spec fn error_message(e: AppError) -> Seq<char> {
    match e {
        AppError::Input(s) => "input simulation error: "@ + s@,
        AppError::InputInit(s) => "input simulator init failed: "@ + s@,
        AppError::Platform(s) => "platform error: "@ + s@,
        AppError::AccessibilityDenied =>
            "accessibility permission denied - grant it under System Settings -> Privacy & Security -> Accessibility"@,
        AppError::EngineGone => "engine thread is no longer running"@,
    }
}

impl AppError {
    /// Builds a platform error from a description.
    pub fn platform(msg: &str) -> (e: AppError)
        ensures
            e is Platform,
            e->Platform_0@ == msg@,
    {
        AppError::Platform(msg.to_owned())
    }

    /// The text shown to the user for this error.
    pub fn message(&self) -> (m: String)
        ensures
            m@ == error_message(*self),
    {
        match self {
            AppError::Input(s) => "input simulation error: ".to_owned().concat(s.as_str()),
            AppError::InputInit(s) => "input simulator init failed: ".to_owned().concat(s.as_str()),
            AppError::Platform(s) => "platform error: ".to_owned().concat(s.as_str()),
            AppError::AccessibilityDenied => {
                "accessibility permission denied - grant it under System Settings -> Privacy & Security -> Accessibility".to_owned()
            },
            AppError::EngineGone => "engine thread is no longer running".to_owned(),
        }
    }
}

} // verus!
