//! The enterprise authentication data model: directory and single-sign-on
//! provider settings, offered credentials, and the claims a provider
//! returns. The providers themselves are network services the shell talks
//! to; the records they exchange are fixed here.

use vstd::prelude::*;

verus! {

/// Which enterprise authentication paths are configured.
#[derive(Clone, Debug)]
pub struct EnterpriseAuthConfig {
    /// Directory-service settings, when directory login is configured.
    pub ldap: Option<LdapConfig>,
    /// Single-sign-on settings, when SSO login is configured.
    pub sso: Option<SsoConfig>,
}

/// Directory-service connection settings.
#[derive(Clone, Debug)]
pub struct LdapConfig {
    /// The directory server URL.
    pub server_url: String,
    /// The search base distinguished name.
    pub base_dn: String,
    /// The service account distinguished name used to bind.
    pub bind_dn: String,
    /// The service account password.
    pub bind_password: String,
    /// The filter that finds a user entry.
    pub user_filter: String,
    /// The attribute holding group membership.
    pub group_attribute: String,
}

/// What a caller offers to authenticate with.
#[derive(Clone, Debug)]
pub struct AuthCredentials {
    /// The account name.
    pub username: String,
    /// A password, for direct login.
    pub password: Option<String>,
    /// A provider token, for single sign-on.
    pub token: Option<String>,
}

/// What an authentication provider asserts about the account.
#[derive(Clone, Debug)]
pub struct AuthClaims {
    /// Subject identifier.
    pub sub: String,
    /// Display name.
    pub name: String,
    /// Email address.
    pub email: String,
    /// Group memberships.
    pub groups: Vec<String>,
    /// Granted permissions.
    pub permissions: Vec<String>,
}

/// Why authentication failed.
#[derive(Clone, Debug)]
pub enum AuthError {
    /// Neither directory nor SSO login is configured.
    NoAuthMethodsConfigured,
    /// The directory service refused or failed.
    LdapError(String),
    /// The SSO provider refused or failed.
    SsoError(String),
    /// The offered credentials are wrong.
    InvalidCredentials,
    /// The offered token has expired.
    TokenExpired,
}

/// Single-sign-on settings: the provider and how its attributes map to
/// claims.
#[derive(Clone, Debug)]
pub struct SsoConfig {
    /// Which protocol the provider speaks.
    pub provider_type: SsoProviderType,
    /// The provider's own settings.
    pub provider_config: ProviderConfig,
    /// How provider attributes map to claims.
    pub attribute_mappings: AttributeMappings,
}

/// The supported single-sign-on protocols.
#[derive(Clone, Copy, Debug, PartialEq, Eq, Structural)]
pub enum SsoProviderType {
    /// SAML 2.0.
    Saml,
    /// OpenID Connect.
    Oidc,
}

/// The settings of one single-sign-on provider.
#[derive(Clone, Debug)]
pub enum ProviderConfig {
    /// SAML provider settings.
    Saml(SamlConfig),
    /// OpenID Connect provider settings.
    Oidc(OidcConfig),
}

/// SAML 2.0 provider settings.
#[derive(Clone, Debug)]
pub struct SamlConfig {
    /// The identity provider's metadata URL.
    pub idp_metadata_url: String,
    /// This service provider's entity identifier.
    pub sp_entity_id: String,
    /// The assertion consumer service URL.
    pub acs_url: String,
    /// The service provider certificate, PEM.
    pub sp_certificate: String,
    /// The service provider private key, PEM.
    pub sp_private_key: String,
}

/// OpenID Connect provider settings.
#[derive(Clone, Debug)]
pub struct OidcConfig {
    /// The issuer URL.
    pub issuer: String,
    /// The client identifier.
    pub client_id: String,
    /// The client secret.
    pub client_secret: String,
    /// The redirect URI.
    pub redirect_uri: String,
    /// The requested scopes.
    pub scopes: Vec<String>,
}

/// Which provider attribute carries which claim.
#[derive(Clone, Debug)]
pub struct AttributeMappings {
    /// The attribute holding the account name.
    pub username: String,
    /// The attribute holding the display name.
    pub name: String,
    /// The attribute holding the email address.
    pub email: String,
    /// The attribute holding group membership.
    pub groups: String,
}

} // verus!
