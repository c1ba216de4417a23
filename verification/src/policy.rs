//! The enterprise policy data model: authentication methods and password
//! rules, TLS and rate limits, network and proxy settings, and compliance
//! requirements. Enforcing a policy against a live system is the shell's
//! business; the records are fixed here.

use vstd::prelude::*;

verus! {

/// Authentication policy: methods, password rules and session limits.
#[derive(Clone, Debug)]
pub struct AuthConfig {
    /// The permitted authentication methods.
    pub methods: Vec<AuthMethod>,
    /// The password policy.
    pub password_policy: PasswordPolicy,
    /// Session limits.
    pub session: SessionConfig,
}

/// One way to authenticate.
#[derive(Clone, Copy, Debug, PartialEq, Eq, Structural)]
pub enum AuthMethod {
    /// Local accounts.
    Local,
    /// A directory service.
    Ldap,
    /// Single sign-on.
    Sso,
}

/// What a password must look like and how long it may live.
#[derive(Clone, Copy, Debug, PartialEq, Eq, Structural)]
pub struct PasswordPolicy {
    /// Minimum length.
    pub min_length: u32,
    /// Require an uppercase letter.
    pub require_uppercase: bool,
    /// Require a lowercase letter.
    pub require_lowercase: bool,
    /// Require a digit.
    pub require_numbers: bool,
    /// Require a special character.
    pub require_special: bool,
    /// Maximum age in days.
    pub max_age_days: u32,
    /// How many old passwords may not be reused.
    pub history_size: u32,
}

/// Session limits.
#[derive(Clone, Copy, Debug, PartialEq, Eq, Structural)]
pub struct SessionConfig {
    /// Idle timeout in minutes.
    pub timeout_minutes: u32,
    /// Most concurrent sessions per account.
    pub max_concurrent: u32,
    /// Require a second factor.
    pub require_mfa: bool,
}

/// Security policy: TLS, address lists and rate limits.
#[derive(Clone, Debug)]
pub struct SecurityConfig {
    /// TLS requirements.
    pub tls: TlsConfig,
    /// Addresses always admitted.
    pub ip_allowlist: Vec<String>,
    /// Addresses always refused.
    pub ip_denylist: Vec<String>,
    /// Rate limits.
    pub rate_limiting: RateLimitConfig,
}

/// TLS requirements.
#[derive(Clone, Debug)]
pub struct TlsConfig {
    /// The lowest TLS version accepted.
    pub min_version: String,
    /// The cipher suites accepted.
    pub cipher_suites: Vec<String>,
    /// Certificate material.
    pub certificates: CertConfig,
}

/// Certificate material locations.
#[derive(Clone, Debug)]
pub struct CertConfig {
    /// CA certificate path.
    pub ca_cert: String,
    /// Server certificate path.
    pub server_cert: String,
    /// Server key path.
    pub server_key: String,
}

/// Rate limits on inbound requests.
#[derive(Clone, Copy, Debug, PartialEq, Eq, Structural)]
pub struct RateLimitConfig {
    /// Requests admitted per minute.
    pub requests_per_minute: u32,
    /// The burst admitted above the steady rate.
    pub burst_size: u32,
}

/// Network policy: ports, proxy and name resolution.
#[derive(Clone, Debug)]
pub struct NetworkConfig {
    /// The ports the server may use.
    pub allowed_ports: Vec<u16>,
    /// Proxy settings, when traffic must go through one.
    pub proxy: Option<ProxyConfig>,
    /// Name-resolution settings.
    pub dns: DnsConfig,
}

/// Proxy settings.
#[derive(Clone, Debug)]
pub struct ProxyConfig {
    /// The proxy URL.
    pub url: String,
    /// Proxy credentials, when the proxy demands them.
    pub auth: Option<ProxyAuth>,
}

/// Proxy credentials.
#[derive(Clone, Debug)]
pub struct ProxyAuth {
    /// The account name.
    pub username: String,
    /// The password.
    pub password: String,
}

/// Name-resolution settings.
#[derive(Clone, Debug)]
pub struct DnsConfig {
    /// The resolvers to use.
    pub servers: Vec<String>,
    /// The search domains.
    pub search_domains: Vec<String>,
}

/// Compliance policy: retention, auditing and the standards honoured.
#[derive(Clone, Debug)]
pub struct ComplianceConfig {
    /// Data retention rules.
    pub data_retention: RetentionConfig,
    /// Audit rules.
    pub audit: AuditConfig,
    /// The standards the deployment claims.
    pub standards: Vec<ComplianceStandard>,
}

/// Data retention rules.
#[derive(Clone, Debug)]
pub struct RetentionConfig {
    /// Retention period in days.
    pub retention_days: u32,
    /// Archiving rules.
    pub archive: ArchiveConfig,
}

/// Archiving rules.
#[derive(Clone, Debug)]
pub struct ArchiveConfig {
    /// Whether old data is archived.
    pub enabled: bool,
    /// Where the archive goes.
    pub location: String,
    /// The archive format label.
    pub format: String,
}

/// Audit rules within a compliance policy.
#[derive(Clone, Debug)]
pub struct AuditConfig {
    /// Where the audit log goes.
    pub log_path: String,
    /// The log format label.
    pub format: String,
    /// The fields every record must carry.
    pub required_fields: Vec<String>,
}

/// The compliance standards a deployment may claim.
#[derive(Clone, Copy, Debug, PartialEq, Eq, Structural)]
pub enum ComplianceStandard {
    /// SOC 2.
    Soc2,
    /// ISO 27001.
    Iso27001,
    /// HIPAA.
    Hipaa,
    /// GDPR.
    Gdpr,
}

/// A policy to apply to the running configuration.
#[derive(Clone, Debug)]
pub enum ConfigPolicy {
    /// A security policy.
    Security(SecurityPolicy),
    /// A compliance policy.
    Compliance(CompliancePolicy),
}

/// A security policy to enforce. Its rules are not yet drawn up in the
/// deployment; the variant carries no fields until they are.
#[derive(Clone, Copy, Debug, PartialEq, Eq, Structural)]
pub struct SecurityPolicy {}

/// A compliance policy to enforce. Its rules are not yet drawn up in the
/// deployment; the variant carries no fields until they are.
#[derive(Clone, Copy, Debug, PartialEq, Eq, Structural)]
pub struct CompliancePolicy {}

/// Why a configuration change was refused.
#[derive(Clone, Debug)]
pub enum ConfigError {
    /// The new configuration failed validation.
    ValidationError(String),
    /// The policy could not be applied.
    PolicyError(String),
    /// The configuration store failed.
    StorageError(String),
}

} // verus!
