//! Status records the UI surfaces read: terminal sessions, system settings,
//! the access mode with its bind address, and the tunnel services' states.
//! Probing the network or the services is the shell's business; the records
//! and the bind-address rule are fixed here.

use vstd::prelude::*;
use vstd::string::StringExecFns;
use crate::password::hex_digit;
use crate::text::push_char;

verus! {

/// One terminal session as the server reports it.
#[derive(Clone, Debug)]
pub struct Session {
    /// Server-assigned identifier.
    pub id: String,
    /// Human-readable title.
    pub title: String,
    /// When the session was created, preformatted.
    pub created_at: String,
    /// When the session was last active, preformatted.
    pub last_activity: String,
    /// The session's lifecycle state label.
    pub status: String,
    /// The process id, while one is running.
    pub pid: Option<u32>,
    /// The command the session runs.
    pub command: Option<String>,
    /// The working directory the session started in.
    pub working_directory: Option<String>,
}

/// System-level toggles shown in the tray.
#[derive(Clone, Debug)]
pub struct SystemSettings {
    /// Start the application with the system.
    pub auto_start_enabled: bool,
    /// Minimize to the tray instead of closing.
    pub minimize_to_tray: bool,
    /// Start minimized.
    pub start_minimized: bool,
    /// UI theme name.
    pub theme: String,
}

impl Default for SystemSettings {
    /// Tray minimization on, everything else off, dark theme.
    fn default() -> (r: Self)
        ensures
            !r.auto_start_enabled,
            r.minimize_to_tray,
            !r.start_minimized,
            r.theme@ == "dark"@,
    {
        SystemSettings {
            auto_start_enabled: false,
            minimize_to_tray: true,
            start_minimized: false,
            theme: String::from_str("dark"),
        }
    }
}

/// Whether the companion server is reachable from the network or from this
/// machine alone.
#[derive(Clone, Copy, Debug, PartialEq, Eq, Structural)]
pub enum AccessMode {
    /// Bind to 127.0.0.1: reachable from this machine alone.
    LocalhostOnly,
    /// Bind to 0.0.0.0: reachable from the network.
    NetworkAccess,
}

/// The current access mode and what the network probe found.
#[derive(Clone, Debug)]
pub struct AccessModeStatus {
    /// The mode in force.
    pub current_mode: AccessMode,
    /// The port the server listens on.
    pub server_port: u16,
    /// Addresses of the non-loopback interfaces found.
    pub network_interfaces: Vec<String>,
    /// Whether binding to 0.0.0.0 succeeded when probed.
    pub can_bind_network: bool,
    /// What the firewall probe reported, when it ran.
    pub firewall_status: Option<String>,
}

/// The decimal spelling of a non-negative number.
pub open spec fn dec_of(n: int) -> Seq<char>
    decreases n,
{
    if n < 10 {
        seq![hex_digit(n)]
    } else {
        dec_of(n / 10) + seq![hex_digit(n % 10)]
    }
}

/// The decimal spelling of a port number.
fn dec_u16(n: u16) -> (r: String)
    ensures
        r@ == dec_of(n as int),
    decreases n,
{
    if n < 10 {
        let mut s = String::new();
        push_char(&mut s, crate::password::hex_digit_char(n as u8));
        proof {
            assert(s@ =~= dec_of(n as int));
        }
        s
    } else {
        let mut s = dec_u16(n / 10);
        push_char(&mut s, crate::password::hex_digit_char((n % 10) as u8));
        proof {
            assert(s@ =~= dec_of(n as int / 10) + seq![hex_digit(n as int % 10)]);
        }
        s
    }
}

impl AccessModeStatus {
    /// The address the server should bind, decided by the mode: the loopback
    /// address in localhost mode, the wildcard address in network mode when
    /// the probe found binding possible, and an error otherwise.
    pub fn current_binding(&self) -> (r: Result<String, String>)
        ensures
            self.current_mode is LocalhostOnly ==> (r matches Ok(s) && s@ == "127.0.0.1:"@
                + dec_of(self.server_port as int)),
            self.current_mode is NetworkAccess && self.can_bind_network ==> (r matches Ok(s) && s@
                == "0.0.0.0:"@ + dec_of(self.server_port as int)),
            self.current_mode is NetworkAccess && !self.can_bind_network ==> (r matches Err(m)
                && m@ == "Cannot bind to network interfaces"@),
    {
        match self.current_mode {
            AccessMode::LocalhostOnly => {
                let mut s = String::from_str("127.0.0.1:");
                let digits = dec_u16(self.server_port);
                s.append(digits.as_str());
                Ok(s)
            },
            AccessMode::NetworkAccess => {
                if self.can_bind_network {
                    let mut s = String::from_str("0.0.0.0:");
                    let digits = dec_u16(self.server_port);
                    s.append(digits.as_str());
                    Ok(s)
                } else {
                    Err("Cannot bind to network interfaces".to_owned())
                }
            },
        }
    }
}

/// What the Cloudflare tunnel service reports.
#[derive(Clone, Debug)]
pub struct CloudflareStatus {
    /// Whether the `cloudflared` binary was found.
    pub is_installed: bool,
    /// Whether a tunnel is running.
    pub is_running: bool,
    /// The public URL of the running tunnel, when known.
    pub public_url: Option<String>,
    /// The last error the service reported, when any.
    pub status_error: Option<String>,
}

/// What the ngrok tunnel service reports.
#[derive(Clone, Debug)]
pub struct NgrokStatus {
    /// Whether the `ngrok` binary was found.
    pub is_installed: bool,
    /// Whether a tunnel is running.
    pub is_running: bool,
    /// The public URL of the running tunnel, when known.
    pub public_url: Option<String>,
    /// Whether an auth token is configured in the credential store.
    pub auth_token_configured: bool,
    /// The last error the service reported, when any.
    pub status_error: Option<String>,
}

} // verus!
