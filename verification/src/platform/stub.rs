use vstd::prelude::*;

use crate::error::AppError;
use crate::platform::WindowPlatform;

verus! {

/// A platform on which the window calls have no effect and always succeed,
/// for systems without a native implementation.
#[derive(Debug, Default)]
pub struct StubPlatform;

impl StubPlatform {
    pub fn new() -> (p: StubPlatform)
        ensures
            p == StubPlatform,
    {
        StubPlatform
    }
}

impl WindowPlatform for StubPlatform {
    fn set_click_through(&self, enabled: bool) -> (r: Result<(), AppError>)
        ensures
            r is Ok,
    {
        Ok(())
    }

    fn set_always_on_top(&self, enabled: bool) -> (r: Result<(), AppError>)
        ensures
            r is Ok,
    {
        Ok(())
    }
}

} // verus!
