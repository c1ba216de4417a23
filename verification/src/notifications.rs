//! Notification policy: which session events raise a notification. The
//! preferences derive from the settings-window configuration; delivering a
//! notification is the platform shell's business.

use vstd::prelude::*;
use crate::settings::SettingsConfig;

verus! {

/// Which events notify, and how.
#[derive(Clone, Copy, Debug, PartialEq, Eq, Structural)]
pub struct NotificationPreferences {
    /// Master switch.
    pub enabled: bool,
    /// Play a sound.
    pub sound_enabled: bool,
    /// Show in the notification center.
    pub show_in_notification_center: bool,
    /// Notify when a session starts.
    pub session_start: bool,
    /// Notify when a session exits.
    pub session_exit: bool,
    /// Notify when a command fails.
    pub command_error: bool,
    /// Notify when a command completes.
    pub command_completion: bool,
    /// Notify on the terminal bell.
    pub bell: bool,
    /// Notify when an assistant turn finishes.
    pub claude_turn: bool,
}

impl Default for NotificationPreferences {
    /// Session starts, exits and command errors notify; completions, bells
    /// and assistant turns do not.
    fn default() -> (r: Self)
        ensures
            r.enabled,
            r.sound_enabled,
            r.show_in_notification_center,
            r.session_start,
            r.session_exit,
            r.command_error,
            !r.command_completion,
            !r.bell,
            !r.claude_turn,
    {
        NotificationPreferences {
            enabled: true,
            sound_enabled: true,
            show_in_notification_center: true,
            session_start: true,
            session_exit: true,
            command_error: true,
            command_completion: false,
            bell: false,
            claude_turn: false,
        }
    }
}

impl NotificationPreferences {
    /// The preferences a settings record asks for, field by field.
    pub fn from_config(config: &SettingsConfig) -> (r: Self)
        ensures
            r.enabled == config.notifications_enabled,
            r.sound_enabled == config.notification_sound,
            r.show_in_notification_center == config.show_in_notification_center,
            r.session_start == config.notification_session_start,
            r.session_exit == config.notification_session_exit,
            r.command_error == config.notification_command_error,
            r.command_completion == config.notification_command_completion,
            r.bell == config.notification_bell,
            r.claude_turn == config.notification_claude_turn,
    {
        NotificationPreferences {
            enabled: config.notifications_enabled,
            sound_enabled: config.notification_sound,
            show_in_notification_center: config.show_in_notification_center,
            session_start: config.notification_session_start,
            session_exit: config.notification_session_exit,
            command_error: config.notification_command_error,
            command_completion: config.notification_command_completion,
            bell: config.notification_bell,
            claude_turn: config.notification_claude_turn,
        }
    }
}

/// A session event that may raise a notification.
#[derive(Clone, Copy, Debug, PartialEq, Eq, Structural)]
pub enum NotificationEvent {
    /// A session started.
    SessionStart,
    /// A session exited.
    SessionExit,
    /// A command failed.
    CommandError,
    /// A command completed.
    CommandCompletion,
    /// The terminal bell rang.
    Bell,
    /// An assistant turn finished.
    ClaudeTurn,
}

/// The preference flag that gates an event.
pub open spec fn event_flag(prefs: NotificationPreferences, event: NotificationEvent) -> bool {
    match event {
        NotificationEvent::SessionStart => prefs.session_start,
        NotificationEvent::SessionExit => prefs.session_exit,
        NotificationEvent::CommandError => prefs.command_error,
        NotificationEvent::CommandCompletion => prefs.command_completion,
        NotificationEvent::Bell => prefs.bell,
        NotificationEvent::ClaudeTurn => prefs.claude_turn,
    }
}

impl NotificationPreferences {
    /// Whether an event should be shown: the master switch and the event's
    /// own flag must both be set. The display itself is the shell's call;
    /// this is the whole of the decision.
    pub fn should_notify(&self, event: NotificationEvent) -> (r: bool)
        ensures
            r == (self.enabled && event_flag(*self, event)),
    {
        self.enabled && match event {
            NotificationEvent::SessionStart => self.session_start,
            NotificationEvent::SessionExit => self.session_exit,
            NotificationEvent::CommandError => self.command_error,
            NotificationEvent::CommandCompletion => self.command_completion,
            NotificationEvent::Bell => self.bell,
            NotificationEvent::ClaudeTurn => self.claude_turn,
        }
    }
}

/// The notification-related system settings shown in the tray.
#[derive(Clone, Copy, Debug, PartialEq, Eq, Structural)]
pub struct NotificationSettings {
    /// Master switch.
    pub enabled: bool,
    /// Play a sound.
    pub sound_enabled: bool,
    /// Show the application in the dock.
    pub show_in_dock: bool,
    /// Show the server status in the tray.
    pub show_server_status: bool,
}

impl Default for NotificationSettings {
    /// Everything on.
    fn default() -> (r: Self)
        ensures
            r.enabled && r.sound_enabled && r.show_in_dock && r.show_server_status,
    {
        NotificationSettings {
            enabled: true,
            sound_enabled: true,
            show_in_dock: true,
            show_server_status: true,
        }
    }
}

} // verus!
