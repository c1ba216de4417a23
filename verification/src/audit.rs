//! The audit-log data model: where security-relevant events are stored, how
//! long they are retained, how records are signed, and the shape of an event.
//! The storage backends themselves are I/O and live with the shell; the
//! records they exchange are fixed here.

use vstd::prelude::*;

verus! {

/// How the audit log is stored, retained and signed.
#[derive(Clone, Debug)]
pub struct AuditConfig {
    /// Log storage configuration.
    pub storage: StorageConfig,
    /// Retention policy.
    pub retention: RetentionPolicy,
    /// Signing configuration, when records are signed.
    pub signing: Option<SigningConfig>,
}

/// The chosen storage backend and its settings.
#[derive(Clone, Debug)]
pub struct StorageConfig {
    /// Which backend stores the log.
    pub storage_type: StorageType,
    /// The backend's own settings.
    pub config: StorageTypeConfig,
}

/// The audit storage backends.
#[derive(Clone, Copy, Debug, PartialEq, Eq, Structural)]
pub enum StorageType {
    /// Local files.
    File,
    /// The system log.
    Syslog,
    /// A remote logging service.
    Remote,
}

/// The settings of one storage backend.
#[derive(Clone, Debug)]
pub enum StorageTypeConfig {
    /// Local file storage settings.
    File(FileStorageConfig),
    /// System log settings.
    Syslog(SyslogConfig),
    /// Remote service settings.
    Remote(RemoteStorageConfig),
}

/// Local file storage: where the files go and when they rotate.
#[derive(Clone, Debug)]
pub struct FileStorageConfig {
    /// The log directory.
    pub directory: String,
    /// File rotation settings.
    pub rotation: RotationConfig,
}

/// System log settings.
#[derive(Clone, Debug)]
pub struct SyslogConfig {
    /// The syslog facility.
    pub facility: String,
    /// The syslog identifier.
    pub identifier: String,
}

/// Remote logging service settings.
#[derive(Clone, Debug)]
pub struct RemoteStorageConfig {
    /// The remote endpoint URL.
    pub url: String,
    /// The authentication token.
    pub auth_token: String,
    /// TLS settings, when the transport is secured.
    pub tls_config: Option<TlsConfig>,
}

/// When a log file is rotated.
#[derive(Clone, Copy, Debug, PartialEq, Eq, Structural)]
pub struct RotationConfig {
    /// The largest size a file may reach, in bytes.
    pub max_size: u64,
    /// How many rotated files are kept.
    pub max_files: u32,
}

/// TLS material for the remote transport.
#[derive(Clone, Debug)]
pub struct TlsConfig {
    /// CA certificate path.
    pub ca_cert: Option<String>,
    /// Client certificate path.
    pub client_cert: Option<String>,
    /// Client key path.
    pub client_key: Option<String>,
}

/// How long audit records are kept.
#[derive(Clone, Debug)]
pub struct RetentionPolicy {
    /// Retention period in days.
    pub retention_days: u32,
    /// Archive old records instead of discarding them.
    pub archive: bool,
    /// Where the archive goes.
    pub archive_location: Option<String>,
}

/// The signing key for tamper-evident records.
#[derive(Clone, Debug)]
pub struct SigningConfig {
    /// The signing key path.
    pub key_path: String,
    /// The key password, when the key is protected.
    pub key_password: Option<String>,
}

/// What kind of action an audit event records.
#[derive(Clone, Copy, Debug, PartialEq, Eq, Structural)]
pub enum EventType {
    /// A login or credential check.
    Authentication,
    /// A permission decision.
    Authorization,
    /// A configuration change.
    Configuration,
    /// A read of protected data.
    DataAccess,
    /// An operational action.
    SystemOperation,
    /// A security-relevant event.
    Security,
}

/// How severe an audit event is.
#[derive(Clone, Copy, Debug, PartialEq, Eq, Structural)]
pub enum EventSeverity {
    /// Routine.
    Info,
    /// Unusual but handled.
    Warning,
    /// A failure.
    Error,
    /// A failure demanding attention.
    Critical,
}

/// Who performed the recorded action.
#[derive(Clone, Debug)]
pub struct EventActor {
    /// Actor identifier.
    pub id: String,
    /// What kind of actor: a user, a service, the system.
    pub actor_type: String,
    /// The actor's network address, when known.
    pub ip_address: Option<String>,
    /// The actor's user agent, when known.
    pub user_agent: Option<String>,
}

/// What was done.
#[derive(Clone, Debug)]
pub struct EventAction {
    /// The action's kind.
    pub action_type: String,
    /// Free-form detail.
    pub details: String,
}

/// What the action was done to.
#[derive(Clone, Debug)]
pub struct EventTarget {
    /// The target's kind.
    pub target_type: String,
    /// Target identifier.
    pub id: String,
    /// Free-form detail, when any.
    pub details: Option<String>,
}

/// How the action ended.
#[derive(Clone, Debug)]
pub struct EventResult {
    /// Whether the action succeeded.
    pub success: bool,
    /// The error message, when it failed.
    pub error: Option<String>,
}

/// Why an audit operation failed.
#[derive(Clone, Debug)]
pub enum AuditError {
    /// The storage backend failed.
    StorageError(String),
    /// Signing failed.
    SigningError(String),
    /// The configuration is unusable.
    ConfigError(String),
}

impl AuditError {
    /// The failure's message.
    pub fn message(&self) -> (r: &String)
        ensures
            (self matches AuditError::StorageError(m) ==> r@ == m@),
            (self matches AuditError::SigningError(m) ==> r@ == m@),
            (self matches AuditError::ConfigError(m) ==> r@ == m@),
    {
        match self {
            AuditError::StorageError(m) => m,
            AuditError::SigningError(m) => m,
            AuditError::ConfigError(m) => m,
        }
    }
}

} // verus!
