//! The settings-window configuration: what the settings surface shows and
//! toggles. Sensitive values such as provider auth tokens are never part of
//! this record; they live in the credential store.

use vstd::prelude::*;
use vstd::string::StringExecFns;

verus! {

/// Everything the settings window edits. Auth tokens are deliberately
/// absent: they go through the credential store.
#[derive(Clone, Debug)]
pub struct SettingsConfig {
    /// Start the application with the system.
    pub autostart: bool,
    /// Show the application in the dock.
    pub show_in_dock: bool,
    /// Keep the system awake while sessions run.
    pub prevent_sleep: bool,
    /// The port the companion server listens on.
    pub server_port: String,
    /// Whether the server binds to localhost only or to the network.
    pub access_mode: String,
    /// Master notification switch.
    pub notifications_enabled: bool,
    /// Play a sound with notifications.
    pub notification_sound: bool,
    /// Show notifications in the notification center.
    pub show_in_notification_center: bool,
    /// Notify when a session starts.
    pub notification_session_start: bool,
    /// Notify when a session exits.
    pub notification_session_exit: bool,
    /// Notify when a command fails.
    pub notification_command_error: bool,
    /// Notify when a command completes.
    pub notification_command_completion: bool,
    /// Notify on the terminal bell.
    pub notification_bell: bool,
    /// Notify when an assistant turn finishes.
    pub notification_claude_turn: bool,
    /// Tailscale integration switch.
    pub tailscale_enabled: bool,
    /// Cloudflare integration switch.
    pub cloudflare_enabled: bool,
    /// Ngrok integration switch.
    pub ngrok_enabled: bool,
}

impl Default for SettingsConfig {
    /// Local server on port 4020, dock icon and sleep prevention on, the
    /// common notifications on, all tunnel integrations off.
    fn default() -> (r: Self)
        ensures
            !r.autostart,
            r.show_in_dock,
            r.prevent_sleep,
            r.server_port@ == "4020"@,
            r.access_mode@ == "localhost"@,
            r.notifications_enabled,
            r.notification_sound,
            r.show_in_notification_center,
            r.notification_session_start,
            r.notification_session_exit,
            r.notification_command_error,
            !r.notification_command_completion,
            !r.notification_bell,
            !r.notification_claude_turn,
            !r.tailscale_enabled,
            !r.cloudflare_enabled,
            !r.ngrok_enabled,
    {
        SettingsConfig {
            autostart: false,
            show_in_dock: true,
            prevent_sleep: true,
            server_port: String::from_str("4020"),
            access_mode: String::from_str("localhost"),
            notifications_enabled: true,
            notification_sound: true,
            show_in_notification_center: true,
            notification_session_start: true,
            notification_session_exit: true,
            notification_command_error: true,
            notification_command_completion: false,
            notification_bell: false,
            notification_claude_turn: false,
            tailscale_enabled: false,
            cloudflare_enabled: false,
            ngrok_enabled: false,
        }
    }
}

} // verus!
