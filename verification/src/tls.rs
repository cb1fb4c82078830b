//! The TLS credential builder: decodes a certificate chain and one private
//! key from PEM bytes and binds them into a reusable, read-only server
//! credential bundle. Built once before serving starts; any failure here is
//! fatal to startup. Reading the two files happens outside the library.

use vstd::prelude::*;

verus! {

use std::sync::Arc;
use rustls::ServerConfig;
use rustls_pki_types::CertificateDer;
use rustls_pki_types::PrivateKeyDer;

#[verifier::external_type_specification]
#[verifier::external_body]
pub struct ExCertificateDer<'a>(CertificateDer<'a>);

#[verifier::external_type_specification]
#[verifier::external_body]
pub struct ExPrivateKeyDer<'a>(PrivateKeyDer<'a>);

#[verifier::external_type_specification]
#[verifier::external_body]
pub struct ExServerConfig(ServerConfig);

/// Whether every PEM certificate block in these bytes decodes; bytes with no
/// certificate block at all count as an empty, well-decoded chain.
pub uninterp spec fn spec_pem_certs_ok(bytes: Seq<u8>) -> bool;

/// Whether these bytes yield a private key: some PEM section decodes to a
/// key before any section fails to read.
pub uninterp spec fn spec_pem_key_found(bytes: Seq<u8>) -> bool;

/// Relies on rustls_pemfile::certs: it yields every X.509 certificate block
/// found in the bytes, or an error for a block that does not decode. The
/// outcome is a function of the bytes alone.
#[verifier::external_body]
fn pem_certs(bytes: &[u8]) -> (r: Option<Vec<CertificateDer<'static>>>)
    ensures
        r is Some <==> spec_pem_certs_ok(bytes@),
{
    let mut rd = bytes;
    rustls_pemfile::certs(&mut rd).collect::<Result<Vec<_>, _>>().ok()
}

/// Relies on rustls_pemfile::private_key: it yields the first PEM section
/// holding a PKCS#1, PKCS#8 or SEC1 key, none when no such section exists,
/// and an error when a section fails to read. The outcome is a function of
/// the bytes alone.
#[verifier::external_body]
fn pem_private_key(bytes: &[u8]) -> (r: Option<PrivateKeyDer<'static>>)
    ensures
        r is Some <==> spec_pem_key_found(bytes@),
{
    let mut rd = bytes;
    match rustls_pemfile::private_key(&mut rd) {
        Ok(Some(key)) => Some(key),
        _ => None,
    }
}

/// Relies on rustls's ServerConfig builder with the ring provider, requiring
/// no client authentication: with_single_cert accepts the chain and key or
/// rejects them as invalid or mismatched, and with_safe_default_protocol_versions
/// rejects a provider with no usable protocol version.
#[verifier::external_body]
fn build_server_config(
    chain: Vec<CertificateDer<'static>>,
    key: PrivateKeyDer<'static>,
) -> (r: Option<Arc<ServerConfig>>) {
    let provider = Arc::new(rustls::crypto::ring::default_provider());
    match ServerConfig::builder_with_provider(provider).with_safe_default_protocol_versions() {
        Ok(builder) => match builder.with_no_client_auth().with_single_cert(chain, key) {
            Ok(config) => Some(Arc::new(config)),
            Err(_) => None,
        },
        Err(_) => None,
    }
}

/// Why the credential bundle could not be built.
#[derive(Debug, PartialEq, Eq, Structural)]
pub enum TlsError {
    /// A certificate block in the chain file did not decode.
    CertDecode,
    /// The key file yielded no private key.
    KeyDecode,
    /// The decoded chain and key were rejected as a server credential.
    Incompatible,
}

/// The opaque credential bundle, shared read-only across every
/// connection-handling task for the life of the process.
pub struct TlsContext {
    config: Arc<ServerConfig>,
}

impl TlsContext {
    /// The built server configuration, ready to drive handshakes.
    pub fn config(&self) -> &Arc<ServerConfig> {
        &self.config
    }
}

/// Builds the credential bundle from the raw contents of the certificate
/// file and the key file. An empty chain is accepted here — it only
/// surfaces later, as a handshake failure. A missing key is a decode
/// error; a chain and key the TLS backend rejects are incompatible.
pub fn load_tls_config(cert_pem: &[u8], key_pem: &[u8]) -> (r: Result<TlsContext, TlsError>)
    ensures
        (r matches Err(e) && e == TlsError::CertDecode) <==> !spec_pem_certs_ok(cert_pem@),
        (r matches Err(e) && e == TlsError::KeyDecode) <==> (spec_pem_certs_ok(cert_pem@)
            && !spec_pem_key_found(key_pem@)),
        r is Ok ==> spec_pem_certs_ok(cert_pem@) && spec_pem_key_found(key_pem@),
{
    let chain: Vec<CertificateDer<'static>> = match pem_certs(cert_pem) {
        Some(c) => c,
        None => {
            return Err(TlsError::CertDecode);
        },
    };
    let key: PrivateKeyDer<'static> = match pem_private_key(key_pem) {
        Some(k) => k,
        None => {
            return Err(TlsError::KeyDecode);
        },
    };
    match build_server_config(chain, key) {
        Some(config) => Ok(TlsContext { config }),
        None => Err(TlsError::Incompatible),
    }
}

} // verus!
