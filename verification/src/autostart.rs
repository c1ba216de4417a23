//! Auto-start policy: whether the application is registered to start with
//! the system. The platform registration itself — a launch agent, a registry
//! entry, a desktop file — is the shell's call; this holds the decision
//! state it mirrors.

use vstd::prelude::*;

verus! {

/// Tracks whether auto-start is registered.
pub struct AutoStartManager {
    enabled: bool,
}

impl AutoStartManager {
    /// Whether auto-start is registered.
    pub closed spec fn enabled_view(&self) -> bool {
        self.enabled
    }

    /// A manager over an unregistered state.
    pub fn new() -> (r: Self)
        ensures
            !r.enabled_view(),
    {
        AutoStartManager { enabled: false }
    }

    /// Registers auto-start; idempotent.
    pub fn enable_auto_start(&mut self) -> (r: Result<(), String>)
        ensures
            r is Ok,
            final(self).enabled_view(),
    {
        self.enabled = true;
        Ok(())
    }

    /// Unregisters auto-start; idempotent.
    pub fn disable_auto_start(&mut self) -> (r: Result<(), String>)
        ensures
            r is Ok,
            !final(self).enabled_view(),
    {
        self.enabled = false;
        Ok(())
    }

    /// Whether auto-start is registered.
    pub fn is_auto_start_enabled(&self) -> (r: Result<bool, String>)
        ensures
            r == Ok::<bool, String>(self.enabled_view()),
    {
        Ok(self.enabled)
    }
}

} // verus!
