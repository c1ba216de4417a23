//! Power-event policy: which sleep and wake events the application reacts
//! to, and whether monitoring is active. The platform hooks that deliver the
//! events live outside; this is the state they drive.

use vstd::prelude::*;

verus! {

/// Which power events are acted on.
#[derive(Clone, Copy, Debug, PartialEq, Eq, Structural)]
pub struct PowerSettings {
    /// Pause server operations when the system goes to sleep.
    pub pause_on_sleep: bool,
    /// Resume server operations when the system wakes.
    pub resume_on_wake: bool,
    /// React to laptop lid events.
    pub handle_lid_events: bool,
}

impl Default for PowerSettings {
    /// Everything on: pause on sleep, resume on wake, handle lid events.
    fn default() -> (r: Self)
        ensures
            r.pause_on_sleep && r.resume_on_wake && r.handle_lid_events,
    {
        PowerSettings { pause_on_sleep: true, resume_on_wake: true, handle_lid_events: true }
    }
}

/// Owns the power settings and the monitoring flag.
pub struct PowerManager {
    settings: PowerSettings,
    monitoring: bool,
}

impl PowerManager {
    /// The current settings.
    pub closed spec fn settings_view(&self) -> PowerSettings {
        self.settings
    }

    /// Whether monitoring is active.
    pub closed spec fn monitoring_view(&self) -> bool {
        self.monitoring
    }

    /// A manager with default settings, not yet monitoring.
    pub fn new() -> (r: Self)
        ensures
            !r.monitoring_view(),
            r.settings_view().pause_on_sleep && r.settings_view().resume_on_wake
                && r.settings_view().handle_lid_events,
    {
        PowerManager { settings: PowerSettings::default(), monitoring: false }
    }

    /// Starts monitoring; an error when it is already active, so two starts
    /// cannot race past each other.
    pub fn start_monitoring(&mut self) -> (r: Result<(), String>)
        ensures
            old(self).monitoring_view() <==> r is Err,
            final(self).monitoring_view(),
            final(self).settings_view() == old(self).settings_view(),
            r matches Err(m) ==> m@ == "Power monitoring is already active"@,
    {
        if self.monitoring {
            return Err("Power monitoring is already active".to_owned());
        }
        self.monitoring = true;
        Ok(())
    }

    /// Stops monitoring; idempotent.
    pub fn stop_monitoring(&mut self)
        ensures
            !final(self).monitoring_view(),
            final(self).settings_view() == old(self).settings_view(),
    {
        self.monitoring = false;
    }

    /// Whether monitoring is active.
    pub fn is_monitoring(&self) -> (r: bool)
        ensures
            r == self.monitoring_view(),
    {
        self.monitoring
    }

    /// Replaces the settings.
    pub fn update_settings(&mut self, settings: PowerSettings)
        ensures
            final(self).settings_view() == settings,
            final(self).monitoring_view() == old(self).monitoring_view(),
    {
        self.settings = settings;
    }

    /// The current settings.
    pub fn get_settings(&self) -> (r: PowerSettings)
        ensures
            r == self.settings_view(),
    {
        self.settings
    }

    /// Whether a sleep event should pause server operations right now.
    pub fn handle_sleep_event(&self) -> (r: bool)
        ensures
            r == self.settings_view().pause_on_sleep,
    {
        self.settings.pause_on_sleep
    }

    /// Whether a wake event should resume server operations right now.
    pub fn handle_wake_event(&self) -> (r: bool)
        ensures
            r == self.settings_view().resume_on_wake,
    {
        self.settings.resume_on_wake
    }
}

} // verus!
