use vstd::prelude::*;
use crate::config::Config;
use crate::error::{ErrorView, WazuhError};

verus! {

#[verifier::external_type_specification]
#[verifier::external_body]
pub struct ExClient(reqwest::Client);

#[verifier::external_type_specification]
#[verifier::external_body]
pub struct ExClientBuilder(reqwest::ClientBuilder);

#[verifier::external_type_specification]
#[verifier::external_body]
pub struct ExCertificate(reqwest::Certificate);

#[verifier::external_type_specification]
#[verifier::external_body]
pub struct ExIdentity(reqwest::Identity);

/// How many PEM certificate sections the bytes hold; `None` when one of them
/// is not validly encoded.
pub uninterp spec fn pem_certificate_count(pem: Seq<u8>) -> Option<nat>;

/// Whether the bytes hold, in PEM, at least one certificate and a private
/// key, and no section of another kind.
pub uninterp spec fn identity_pem_accepted(pem: Seq<u8>) -> bool;

/// Relies on reqwest::ClientBuilder::new: a builder with reqwest's defaults.
#[verifier::external_body]
fn client_builder() -> (r: reqwest::ClientBuilder) {
    reqwest::ClientBuilder::new()
}

/// Relies on reqwest::ClientBuilder::timeout: every call is bounded by
/// `secs` seconds.
#[verifier::external_body]
fn with_timeout(b: reqwest::ClientBuilder, secs: u64) -> (r: reqwest::ClientBuilder) {
    b.timeout(std::time::Duration::from_secs(secs))
}

/// Relies on reqwest::ClientBuilder::danger_accept_invalid_certs: turns
/// certificate validation off when `accept` holds.
#[verifier::external_body]
fn with_invalid_certs_accepted(b: reqwest::ClientBuilder, accept: bool) -> (r: reqwest::ClientBuilder) {
    b.danger_accept_invalid_certs(accept)
}

/// Relies on reqwest::ClientBuilder::add_root_certificate: trusts `cert` as
/// a root.
#[verifier::external_body]
fn with_root_certificate(b: reqwest::ClientBuilder, cert: reqwest::Certificate) -> (r: reqwest::ClientBuilder) {
    b.add_root_certificate(cert)
}

/// Relies on reqwest::ClientBuilder::identity: presents `id` in the TLS
/// handshake.
#[verifier::external_body]
fn with_identity(b: reqwest::ClientBuilder, id: reqwest::Identity) -> (r: reqwest::ClientBuilder) {
    b.identity(id)
}

/// Relies on reqwest::ClientBuilder::build, which may fail, for instance
/// when the trusted roots cannot be parsed.
#[verifier::external_body]
fn build_client(b: reqwest::ClientBuilder) -> (r: Result<reqwest::Client, reqwest::Error>) {
    b.build()
}

/// Relies on reqwest::Certificate::from_pem_bundle: the certificates of every
/// PEM certificate section, in order; an error when a section's encoding is
/// invalid.
#[verifier::external_body]
fn certificates_from_pem_bundle(pem: &[u8]) -> (r: Result<Vec<reqwest::Certificate>, reqwest::Error>)
    ensures
        match r {
            Ok(v) => pem_certificate_count(pem@) == Some(v@.len()),
            Err(_) => pem_certificate_count(pem@) is None,
        },
{
    reqwest::Certificate::from_pem_bundle(pem)
}

/// Relies on reqwest::Identity::from_pem, which parses the PEM sections of a
/// certificate chain and its private key.
#[verifier::external_body]
fn identity_from_pem(pem: &[u8]) -> (r: Result<reqwest::Identity, reqwest::Error>)
    ensures
        r is Ok == identity_pem_accepted(pem@),
{
    reqwest::Identity::from_pem(pem)
}

/// What the transport is built from: the timeout, whether certificate
/// validation is off, and which TLS files to load.
#[derive(Debug, Clone)]
pub struct TransportPlan {
    pub timeout_secs: u64,
    pub accept_invalid_certs: bool,
    /// Path of a PEM file of an extra trusted root.
    pub ca_cert: Option<String>,
    /// Paths of the PEM certificate and key of a client identity.
    pub client_identity: Option<(String, String)>,
}

/// Reads from the configuration how the transport is to be built: the
/// configured timeout, validation off exactly when `tls.verify` is false, the
/// CA file if one is set, and a client identity only when both its
/// certificate and its key are set.
pub fn plan_transport(config: &Config) -> (p: TransportPlan)
    ensures
        p.timeout_secs == config.api.timeout,
        p.accept_invalid_certs == !config.tls.verify,
        p.ca_cert == config.tls.ca_cert,
        p.client_identity == (match (config.tls.client_cert, config.tls.client_key) {
            (Some(c), Some(k)) => Some((c, k)),
            _ => None,
        }),
{
    let client_identity = match (&config.tls.client_cert, &config.tls.client_key) {
        (Some(c), Some(k)) => Some((c.clone(), k.clone())),
        _ => None,
    };
    TransportPlan {
        timeout_secs: config.api.timeout,
        accept_invalid_certs: !config.tls.verify,
        ca_cert: config.tls.ca_cert.clone(),
        client_identity,
    }
}

/// A CA file that gives at least one certificate.
pub open spec fn ca_pem_usable(pem: Seq<u8>) -> bool {
    pem_certificate_count(pem) matches Some(n) && n > 0
}

/// A CA file is given and gives no certificate.
pub open spec fn ca_refused(ca_pem: Option<Vec<u8>>) -> bool {
    match ca_pem {
        Some(pem) => !ca_pem_usable(pem@),
        None => false,
    }
}

/// A client identity is given and does not parse.
pub open spec fn identity_refused(identity_pem: Option<Vec<u8>>) -> bool {
    match identity_pem {
        Some(pem) => !identity_pem_accepted(pem@),
        None => false,
    }
}

/// The message of a CA file that gives no certificate.
pub open spec fn ca_error_text() -> Seq<char> {
    "Failed to parse CA certificate"@
}

/// The message of a client identity that does not parse.
pub open spec fn identity_error_text() -> Seq<char> {
    "Failed to create client identity"@
}

/// Builds the HTTP client of a plan, given the contents of the files the plan
/// names: `ca_pem` for its CA file, `identity_pem` for its certificate and
/// key, one after the other. Any failure is a configuration error. A CA file
/// that holds no certificate, or one that is not validly encoded, gives the
/// CA error, and only such a file does; with a usable CA file (or none), a
/// client identity that does not parse gives the identity error, and only
/// such an identity does.
pub fn build_transport(
    plan: &TransportPlan,
    ca_pem: Option<Vec<u8>>,
    identity_pem: Option<Vec<u8>>,
) -> (r: Result<reqwest::Client, WazuhError>)
    ensures
        r matches Err(e) ==> e@ is Config,
        ca_refused(ca_pem) <==> (r matches Err(e) && e@ == ErrorView::Config(ca_error_text())),
        (!ca_refused(ca_pem) && identity_refused(identity_pem)) <==> (r matches Err(e) && e@
            == ErrorView::Config(identity_error_text())),
{
    proof {
        reveal_strlit("Failed to parse CA certificate");
        reveal_strlit("Failed to create client identity");
        reveal_strlit("Failed to build HTTP client");
        assert(ca_error_text()[10] != identity_error_text()[10]);
        assert(ca_error_text()[10] != "Failed to build HTTP client"@[10]);
        assert(identity_error_text()[10] != "Failed to build HTTP client"@[10]);
    }
    let mut b = client_builder();
    b = with_timeout(b, plan.timeout_secs);
    b = with_invalid_certs_accepted(b, plan.accept_invalid_certs);
    if let Some(pem) = ca_pem {
        match certificates_from_pem_bundle(pem.as_slice()) {
            Ok(mut certs) => {
                if certs.len() == 0 {
                    return Err(WazuhError::ConfigError(String::from_str("Failed to parse CA certificate")));
                }
                while certs.len() > 0
                    decreases certs@.len(),
                {
                    let cert = certs.remove(0);
                    b = with_root_certificate(b, cert);
                }
            },
            Err(_) => {
                return Err(WazuhError::ConfigError(String::from_str("Failed to parse CA certificate")));
            },
        }
    }
    if let Some(pem) = identity_pem {
        match identity_from_pem(pem.as_slice()) {
            Ok(id) => {
                b = with_identity(b, id);
            },
            Err(_) => {
                return Err(WazuhError::ConfigError(String::from_str("Failed to create client identity")));
            },
        }
    }
    match build_client(b) {
        Ok(c) => Ok(c),
        Err(_) => Err(WazuhError::ConfigError(String::from_str("Failed to build HTTP client"))),
    }
}

} // verus!
