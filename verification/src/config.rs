//! The application configuration record that the configuration file holds.
//! Loading and saving the file is I/O and lives with the caller; the record
//! and its defaults are fixed here.

use vstd::prelude::*;
use vstd::string::StringExecFns;

verus! {

/// The persisted application configuration.
#[derive(Clone, Debug)]
pub struct AppConfig {
    /// The port the companion server listens on.
    pub server_port: u16,
    /// Start the companion server with the application.
    pub auto_start_server: bool,
    /// Use a development server instead of the bundled one.
    pub use_development_server: bool,
    /// UI theme name.
    pub theme: String,
    /// Master notification switch.
    pub notifications_enabled: bool,
    /// Start the application with the system.
    pub auto_launch: bool,
    /// Minimize to the tray instead of closing.
    pub minimize_to_tray: bool,
    /// The host the companion server binds to.
    pub server_host: String,
    /// An explicit server executable path, when the default search is not
    /// wanted.
    pub server_executable_path: Option<String>,
}

impl Default for AppConfig {
    /// Auto-started server on 127.0.0.1:4021, dark theme, notifications on,
    /// tray minimization on, no explicit executable path.
    fn default() -> (r: Self)
        ensures
            r.server_port == 4021,
            r.auto_start_server,
            !r.use_development_server,
            r.theme@ == "dark"@,
            r.notifications_enabled,
            !r.auto_launch,
            r.minimize_to_tray,
            r.server_host@ == "127.0.0.1"@,
            r.server_executable_path is None,
    {
        AppConfig {
            server_port: 4021,
            auto_start_server: true,
            use_development_server: false,
            theme: String::from_str("dark"),
            notifications_enabled: true,
            auto_launch: false,
            minimize_to_tray: true,
            server_host: String::from_str("127.0.0.1"),
            server_executable_path: None,
        }
    }
}

} // verus!
