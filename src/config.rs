use vstd::prelude::*;

verus! {

/// The port of the upstream server where none is configured.
pub const DEFAULT_SMTP_PORT: u16 = 587;

/// A configuration that the gateway refuses to start with.
#[derive(Clone, Copy, Debug, PartialEq, Eq, Structural)]
pub enum ConfigError {
    MissingApiKey,
    MissingSmtpHost,
    PartialTls,
    PartialCredentials,
}

/// The settings of the gateway, read once at startup.
pub struct GatewayConfig {
    pub api_key: String,
    pub smtp_host: String,
    pub smtp_port: u16,
    pub credentials: Option<(String, String)>,
    pub ehlo_domain: Option<String>,
    pub tls: Option<(String, String)>,
}

/// Two settings that go together: both are given or neither is.
pub open spec fn paired<A, B>(a: Option<A>, b: Option<B>) -> bool {
    a is Some == b is Some
}

/// The first fault of a configuration, in the order the values are checked.
pub open spec fn config_fault(
    api_key: Option<String>,
    smtp_host: Option<String>,
    smtp_user: Option<String>,
    smtp_password: Option<String>,
    tls_cert: Option<String>,
    tls_domain: Option<String>,
) -> Option<ConfigError> {
    if api_key is None {
        Some(ConfigError::MissingApiKey)
    } else if !paired(tls_cert, tls_domain) {
        Some(ConfigError::PartialTls)
    } else if smtp_host is None {
        Some(ConfigError::MissingSmtpHost)
    } else if !paired(smtp_user, smtp_password) {
        Some(ConfigError::PartialCredentials)
    } else {
        None
    }
}

fn pair_of(a: Option<String>, b: Option<String>) -> (r: Option<(String, String)>)
    requires
        paired(a, b),
    ensures
        r matches Some(p) ==> a == Some(p.0) && b == Some(p.1),
        r is None ==> a is None,
{
    match (a, b) {
        (Some(x), Some(y)) => Some((x, y)),
        _ => None,
    }
}

/// Builds the configuration from its raw values, refusing a missing API key or
/// host, and a user without a password, a certificate without a TLS domain, or
/// the reverse of either.
pub fn load_config(
    api_key: Option<String>,
    smtp_host: Option<String>,
    smtp_port: Option<u16>,
    smtp_user: Option<String>,
    smtp_password: Option<String>,
    ehlo_domain: Option<String>,
    tls_cert: Option<String>,
    tls_domain: Option<String>,
) -> (r: Result<GatewayConfig, ConfigError>)
    ensures
        config_fault(api_key, smtp_host, smtp_user, smtp_password, tls_cert, tls_domain) matches Some(
            f,
        ) ==> r == Err::<GatewayConfig, ConfigError>(f),
        config_fault(api_key, smtp_host, smtp_user, smtp_password, tls_cert, tls_domain) is None
            ==> (r matches Ok(c) && {
            &&& api_key == Some(c.api_key)
            &&& smtp_host == Some(c.smtp_host)
            &&& c.smtp_port == match smtp_port {
                Some(p) => p,
                None => DEFAULT_SMTP_PORT,
            }
            &&& match c.credentials {
                Some(p) => smtp_user == Some(p.0) && smtp_password == Some(p.1),
                None => smtp_user is None,
            }
            &&& c.ehlo_domain == ehlo_domain
            &&& match c.tls {
                Some(p) => tls_cert == Some(p.0) && tls_domain == Some(p.1),
                None => tls_cert is None,
            }
        }),
{
    let api_key = match api_key {
        Some(k) => k,
        None => return Err(ConfigError::MissingApiKey),
    };
    if tls_cert.is_some() != tls_domain.is_some() {
        return Err(ConfigError::PartialTls);
    }
    let smtp_host = match smtp_host {
        Some(h) => h,
        None => return Err(ConfigError::MissingSmtpHost),
    };
    if smtp_user.is_some() != smtp_password.is_some() {
        return Err(ConfigError::PartialCredentials);
    }
    let smtp_port = match smtp_port {
        Some(p) => p,
        None => DEFAULT_SMTP_PORT,
    };
    let credentials = pair_of(smtp_user, smtp_password);
    let tls = pair_of(tls_cert, tls_domain);
    Ok(GatewayConfig { api_key, smtp_host, smtp_port, credentials, ehlo_domain, tls })
}

} // verus!
