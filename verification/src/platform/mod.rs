use vstd::prelude::*;

use crate::error::AppError;

pub mod stub;

verus! {

/// The window-system calls the application needs. Each may fail, and
/// nothing is promised of the outcome: callers handle both.
pub trait WindowPlatform: std::fmt::Debug {
    /// Lets mouse events pass through the application window (`true`), or
    /// makes the window catch them again (`false`).
    fn set_click_through(&self, enabled: bool) -> Result<(), AppError>;

    /// Keeps the application window above all others (`true`), or lets it
    /// be covered again (`false`).
    fn set_always_on_top(&self, enabled: bool) -> Result<(), AppError>;
}

} // verus!
