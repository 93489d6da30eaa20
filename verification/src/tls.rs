//! With which certificates the server speaks TLS.

use rustls::pki_types::{
    CertificateDer, PrivateKeyDer, PrivatePkcs1KeyDer, PrivatePkcs8KeyDer, PrivateSec1KeyDer,
};
use std::sync::Arc;
use vstd::prelude::*;

use crate::config::Config;

verus! {

/// The names that a certificate of the server's own making is for.
pub const SELF_SIGNED_NAMES: (&'static str, &'static str) = ("localhost", "127.0.0.1");

/// Whom a certificate of the server's own making names.
pub const SELF_SIGNED_COMMON_NAME: &'static str = "WebPad";

/// Errors on the way to a certificate and its key.
#[derive(Debug, Clone)]
pub enum TlsError {
    /// A file cannot be read.
    Unreadable(String),
    /// The text holds a certificate that cannot be read.
    BadCertificate(String),
    /// The text holds no certificate.
    NoCertificate,
    /// The text holds a key that cannot be read.
    BadKey(String),
    /// The text holds no private key.
    NoPrivateKey,
    /// No certificate could be made.
    NotGenerated(String),
    /// The certificates and the key cannot be used to speak TLS.
    Unusable(String),
}

/// What an error on the way to a certificate says.
pub enum TlsErrorView {
    Unreadable(Seq<char>),
    BadCertificate(Seq<char>),
    NoCertificate,
    BadKey(Seq<char>),
    NoPrivateKey,
    NotGenerated(Seq<char>),
    Unusable(Seq<char>),
}

impl View for TlsError {
    type V = TlsErrorView;

    open spec fn view(&self) -> TlsErrorView {
        match *self {
            TlsError::Unreadable(msg) => TlsErrorView::Unreadable(msg@),
            TlsError::BadCertificate(msg) => TlsErrorView::BadCertificate(msg@),
            TlsError::NoCertificate => TlsErrorView::NoCertificate,
            TlsError::BadKey(msg) => TlsErrorView::BadKey(msg@),
            TlsError::NoPrivateKey => TlsErrorView::NoPrivateKey,
            TlsError::NotGenerated(msg) => TlsErrorView::NotGenerated(msg@),
            TlsError::Unusable(msg) => TlsErrorView::Unusable(msg@),
        }
    }
}

impl TlsError {
    /// The message of the error.
    pub open spec fn message(self) -> Seq<char> {
        match self@ {
            TlsErrorView::Unreadable(msg) => msg,
            TlsErrorView::BadCertificate(msg) => msg,
            TlsErrorView::NoCertificate => "No certificates found"@,
            TlsErrorView::BadKey(msg) => msg,
            TlsErrorView::NoPrivateKey => "No private key found"@,
            TlsErrorView::NotGenerated(msg) => msg,
            TlsErrorView::Unusable(msg) => msg,
        }
    }

    /// The message of the error as a string.
    pub fn to_string(&self) -> (s: String)
        ensures
            s@ == self.message(),
            match *self {
                TlsError::Unreadable(msg) => s@ == msg@,
                TlsError::BadCertificate(msg) => s@ == msg@,
                TlsError::NoCertificate => s@ == "No certificates found"@,
                TlsError::BadKey(msg) => s@ == msg@,
                TlsError::NoPrivateKey => s@ == "No private key found"@,
                TlsError::NotGenerated(msg) => s@ == msg@,
                TlsError::Unusable(msg) => s@ == msg@,
            },
    {
        match self {
            TlsError::Unreadable(msg) => msg.clone(),
            TlsError::BadCertificate(msg) => msg.clone(),
            TlsError::NoCertificate => "No certificates found".to_owned(),
            TlsError::BadKey(msg) => msg.clone(),
            TlsError::NoPrivateKey => "No private key found".to_owned(),
            TlsError::NotGenerated(msg) => msg.clone(),
            TlsError::Unusable(msg) => msg.clone(),
        }
    }
}

/// In which format a private key is written.
#[derive(Debug, Clone, Copy, PartialEq, Eq, Structural)]
pub enum KeyFormat {
    Pkcs1,
    Sec1,
    Pkcs8,
    Unknown,
}

/// A private key in DER form.
pub struct PrivateKey {
    pub format: KeyFormat,
    pub der: Vec<u8>,
}

impl PrivateKey {
    /// The format and the bytes of the key.
    pub open spec fn parts(self) -> (KeyFormat, Seq<u8>) {
        (self.format, self.der@)
    }
}

/// A chain of certificates in DER form, with the private key of the first.
pub struct Identity {
    pub certs: Vec<Vec<u8>>,
    pub key: PrivateKey,
}

/// The bytes of each certificate of a chain.
pub open spec fn chain(certs: Vec<Vec<u8>>) -> Seq<Seq<u8>> {
    certs@.map_values(|c: Vec<u8>| c@)
}

/// What reading the certificates of a PEM text gives: those it holds in turn, or the message
/// of the first error.
pub uninterp spec fn pem_certs(data: Seq<u8>) -> Result<Seq<Seq<u8>>, Seq<char>>;

/// What reading the private key of a PEM text gives: the first one that it holds, if any, or
/// the message of an error before it.
pub uninterp spec fn pem_private_key(data: Seq<u8>) -> Result<
    Option<(KeyFormat, Seq<u8>)>,
    Seq<char>,
>;

/// Whether the first text is a certificate in PEM form that was made for some names and names
/// `common_name`, and the second the private key with which it signed itself.
pub uninterp spec fn issued_for(
    cert_pem: Seq<char>,
    key_pem: Seq<char>,
    names: Seq<Seq<char>>,
    common_name: Seq<char>,
) -> bool;

/// A reading of certificates, by what it holds.
pub open spec fn certs_read(parsed: Result<Vec<Vec<u8>>, String>) -> Result<
    Seq<Seq<u8>>,
    Seq<char>,
> {
    match parsed {
        Ok(certs) => Ok(chain(certs)),
        Err(msg) => Err(msg@),
    }
}

/// A reading of a private key, by what it holds.
pub open spec fn key_read(parsed: Result<Option<PrivateKey>, String>) -> Result<
    Option<(KeyFormat, Seq<u8>)>,
    Seq<char>,
> {
    match parsed {
        Ok(Some(key)) => Ok(Some(key.parts())),
        Ok(None) => Ok(None),
        Err(msg) => Err(msg@),
    }
}

/// `rustls_pemfile::certs`, collected: the certificates of a PEM text, or the message of the
/// first error. The result depends on the text alone.
#[verifier::external_body]
fn parse_certs(data: &[u8]) -> (parsed: Result<Vec<Vec<u8>>, String>)
    ensures
        certs_read(parsed) == pem_certs(data@),
{
    let mut reader = data;
    rustls_pemfile::certs(&mut reader)
        .map(|cert| cert.map(|der| der.to_vec()).map_err(|e| e.to_string()))
        .collect()
}

/// `rustls_pemfile::private_key`: the first private key of a PEM text, or the message of an
/// error before it. The result depends on the text alone.
#[verifier::external_body]
fn parse_private_key(data: &[u8]) -> (parsed: Result<Option<PrivateKey>, String>)
    ensures
        key_read(parsed) == pem_private_key(data@),
{
    let mut reader = data;
    let key = match rustls_pemfile::private_key(&mut reader).map_err(|e| e.to_string())? {
        Some(key) => key,
        None => return Ok(None),
    };
    let format = match &key {
        PrivateKeyDer::Pkcs1(_) => KeyFormat::Pkcs1,
        PrivateKeyDer::Sec1(_) => KeyFormat::Sec1,
        PrivateKeyDer::Pkcs8(_) => KeyFormat::Pkcs8,
        _ => KeyFormat::Unknown,
    };
    Ok(Some(PrivateKey { format, der: key.secret_der().to_vec() }))
}

/// `rcgen::CertificateParams::new` with the given names, `KeyPair::generate` and
/// `CertificateParams::self_signed`: a certificate in PEM form that names `common_name`, and
/// its fresh random key in PEM form, or the message of an error. The claim is for whom the
/// certificate was made; the key, and with it the texts, are left to chance, and so is success.
#[verifier::external_body]
fn self_signed(names: Vec<String>, common_name: String) -> (made: Result<(String, String), String>)
    ensures
        made matches Ok((cert_pem, key_pem)) ==> issued_for(
            cert_pem@,
            key_pem@,
            names@.map_values(|name: String| name@),
            common_name@,
        ),
{
    let mut params = rcgen::CertificateParams::new(names).map_err(|e| e.to_string())?;
    params
        .distinguished_name
        .push(rcgen::DnType::CommonName, rcgen::DnValue::Utf8String(common_name));
    let key_pair = rcgen::KeyPair::generate().map_err(|e| e.to_string())?;
    let cert = params.self_signed(&key_pair).map_err(|e| e.to_string())?;
    Ok((cert.pem(), key_pair.serialize_pem()))
}

/// `rustls::ServerConfig`, what a server needs to speak TLS.
#[verifier::external_type_specification]
#[verifier::external_body]
pub struct ExServerConfig(rustls::ServerConfig);

/// The message with which a chain of certificates and a private key are refused for a TLS
/// server, if they are.
pub uninterp spec fn refused_with(
    certs: Seq<Seq<u8>>,
    format: KeyFormat,
    der: Seq<u8>,
) -> Option<Seq<char>>;

/// Whether a configuration shows a chain of certificates to its clients and signs with a
/// private key.
pub uninterp spec fn shows(
    config: rustls::ServerConfig,
    certs: Seq<Seq<u8>>,
    format: KeyFormat,
    der: Seq<u8>,
) -> bool;

/// `rustls::ServerConfig::builder_with_provider` with the provider of ring and the default
/// versions, `with_no_client_auth` and `with_single_cert`: a configuration that shows the
/// chain and signs with the key, or the message of the error. Whether there is one, and which,
/// depends on the chain and the key alone. What else is inside the configuration is left
/// unsaid.
#[verifier::external_body]
fn server_config(certs: Vec<Vec<u8>>, key: PrivateKey) -> (made: Result<
    rustls::ServerConfig,
    String,
>)
    requires
        key.format != KeyFormat::Unknown,
    ensures
        refused_with(chain(certs), key.format, key.der@) == match made {
            Ok(_) => None,
            Err(msg) => Some(msg@),
        },
        made matches Ok(config) ==> shows(config, chain(certs), key.format, key.der@),
{
    let key = match key.format {
        KeyFormat::Pkcs1 => PrivateKeyDer::from(PrivatePkcs1KeyDer::from(key.der)),
        KeyFormat::Sec1 => PrivateKeyDer::from(PrivateSec1KeyDer::from(key.der)),
        _ => PrivateKeyDer::from(PrivatePkcs8KeyDer::from(key.der)),
    };
    let provider = Arc::new(rustls::crypto::ring::default_provider());
    rustls::ServerConfig::builder_with_provider(provider)
        .with_safe_default_protocol_versions()
        .map_err(|e| e.to_string())?
        .with_no_client_auth()
        .with_single_cert(certs.into_iter().map(CertificateDer::from).collect(), key)
        .map_err(|e| e.to_string())
}

/// Where the server's certificate comes from.
#[derive(Debug, Clone)]
pub enum TlsPlan {
    /// The server does not speak TLS.
    Disabled,
    /// The certificate and its key are read from files.
    Files { cert_path: String, key_path: String },
    /// The server makes a certificate of its own.
    SelfSigned,
}

/// Where the server's certificate comes from by its settings: from files only where both are
/// named.
pub fn tls_plan(config: &Config) -> (plan: TlsPlan)
    ensures
        match plan {
            TlsPlan::Disabled => !config.enable_tls,
            TlsPlan::Files { cert_path, key_path } => config.enable_tls && config.cert_path == Some(
                cert_path,
            ) && config.key_path == Some(key_path),
            TlsPlan::SelfSigned => config.enable_tls && (config.cert_path is None
                || config.key_path is None),
        },
{
    if !config.enable_tls {
        return TlsPlan::Disabled;
    }
    match (&config.cert_path, &config.key_path) {
        (Some(cert_path), Some(key_path)) => TlsPlan::Files {
            cert_path: cert_path.clone(),
            key_path: key_path.clone(),
        },
        _ => TlsPlan::SelfSigned,
    }
}

/// What a reading of certificates from a file leads to.
pub open spec fn certs_outcome(read: Result<Seq<Seq<u8>>, Seq<char>>) -> Result<
    Seq<Seq<u8>>,
    TlsErrorView,
> {
    match read {
        Ok(certs) => Ok(certs),
        Err(msg) => Err(TlsErrorView::BadCertificate(msg)),
    }
}

/// What a reading of a private key leads to.
pub open spec fn key_outcome(read: Result<Option<(KeyFormat, Seq<u8>)>, Seq<char>>) -> Result<
    (KeyFormat, Seq<u8>),
    TlsErrorView,
> {
    match read {
        Ok(Some(key)) => Ok(key),
        Ok(None) => Err(TlsErrorView::NoPrivateKey),
        Err(msg) => Err(TlsErrorView::BadKey(msg)),
    }
}

/// What the readings of a certificate of the server's own making and of its key lead to: an
/// empty chain is no identity.
pub open spec fn identity_outcome(
    certs: Result<Seq<Seq<u8>>, Seq<char>>,
    key: Result<Option<(KeyFormat, Seq<u8>)>, Seq<char>>,
) -> Result<(Seq<Seq<u8>>, (KeyFormat, Seq<u8>)), TlsErrorView> {
    match certs_outcome(certs) {
        Err(e) => Err(e),
        Ok(c) => if c.len() == 0 {
            Err(TlsErrorView::NoCertificate)
        } else {
            match key_outcome(key) {
                Err(e) => Err(e),
                Ok(k) => Ok((c, k)),
            }
        },
    }
}

/// A chain or an error, by what it holds.
pub open spec fn certs_result(r: Result<Vec<Vec<u8>>, TlsError>) -> Result<
    Seq<Seq<u8>>,
    TlsErrorView,
> {
    match r {
        Ok(certs) => Ok(chain(certs)),
        Err(e) => Err(e@),
    }
}

/// A key or an error, by what it holds.
pub open spec fn key_result(r: Result<PrivateKey, TlsError>) -> Result<
    (KeyFormat, Seq<u8>),
    TlsErrorView,
> {
    match r {
        Ok(key) => Ok(key.parts()),
        Err(e) => Err(e@),
    }
}

/// An identity or an error, by what it holds.
pub open spec fn identity_result(r: Result<Identity, TlsError>) -> Result<
    (Seq<Seq<u8>>, (KeyFormat, Seq<u8>)),
    TlsErrorView,
> {
    match r {
        Ok(identity) => Ok((chain(identity.certs), identity.key.parts())),
        Err(e) => Err(e@),
    }
}

/// The certificates that a reading gave, or the error.
pub fn accept_certs(parsed: Result<Vec<Vec<u8>>, String>) -> (r: Result<Vec<Vec<u8>>, TlsError>)
    ensures
        certs_result(r) == certs_outcome(certs_read(parsed)),
        match parsed {
            Ok(certs) => r == Ok::<Vec<Vec<u8>>, TlsError>(certs),
            Err(msg) => r == Err::<Vec<Vec<u8>>, TlsError>(TlsError::BadCertificate(msg)),
        },
{
    match parsed {
        Ok(certs) => Ok(certs),
        Err(msg) => Err(TlsError::BadCertificate(msg)),
    }
}

/// The key that a reading gave, or the error.
pub fn accept_key(parsed: Result<Option<PrivateKey>, String>) -> (r: Result<PrivateKey, TlsError>)
    ensures
        key_result(r) == key_outcome(key_read(parsed)),
        match parsed {
            Ok(Some(key)) => r == Ok::<PrivateKey, TlsError>(key),
            Ok(None) => r == Err::<PrivateKey, TlsError>(TlsError::NoPrivateKey),
            Err(msg) => r == Err::<PrivateKey, TlsError>(TlsError::BadKey(msg)),
        },
{
    match parsed {
        Ok(Some(key)) => Ok(key),
        Ok(None) => Err(TlsError::NoPrivateKey),
        Err(msg) => Err(TlsError::BadKey(msg)),
    }
}

/// The identity that the readings of a certificate of the server's own making and of its key
/// gave, or the error.
pub fn accept_identity(
    certs: Result<Vec<Vec<u8>>, String>,
    key: Result<Option<PrivateKey>, String>,
) -> (r: Result<Identity, TlsError>)
    ensures
        identity_result(r) == identity_outcome(certs_read(certs), key_read(key)),
        match (certs, key) {
            (Err(msg), _) => r == Err::<Identity, TlsError>(TlsError::BadCertificate(msg)),
            (Ok(c), k) => if c@.len() == 0 {
                r == Err::<Identity, TlsError>(TlsError::NoCertificate)
            } else {
                match k {
                    Err(msg) => r == Err::<Identity, TlsError>(TlsError::BadKey(msg)),
                    Ok(None) => r == Err::<Identity, TlsError>(TlsError::NoPrivateKey),
                    Ok(Some(key)) => r == Ok::<Identity, TlsError>(Identity { certs: c, key }),
                }
            },
        },
{
    let certs = match accept_certs(certs) {
        Ok(certs) => certs,
        Err(e) => {
            return Err(e);
        },
    };
    if certs.len() == 0 {
        return Err(TlsError::NoCertificate);
    }
    match accept_key(key) {
        Ok(key) => Ok(Identity { certs, key }),
        Err(e) => Err(e),
    }
}

/// The certificates of a PEM file with the given contents.
pub fn load_certs(data: &[u8]) -> (r: Result<Vec<Vec<u8>>, TlsError>)
    ensures
        certs_result(r) == certs_outcome(pem_certs(data@)),
        match r {
            Ok(certs) => pem_certs(data@) == Ok::<Seq<Seq<u8>>, Seq<char>>(chain(certs)),
            Err(e) => e matches TlsError::BadCertificate(msg) && pem_certs(data@) == Err::<
                Seq<Seq<u8>>,
                Seq<char>,
            >(msg@),
        },
{
    accept_certs(parse_certs(data))
}

/// The private key of a PEM file with the given contents.
pub fn load_key(data: &[u8]) -> (r: Result<PrivateKey, TlsError>)
    ensures
        key_result(r) == key_outcome(pem_private_key(data@)),
        match r {
            Ok(key) => pem_private_key(data@) == Ok::<Option<(KeyFormat, Seq<u8>)>, Seq<char>>(
                Some((key.format, key.der@)),
            ),
            Err(TlsError::NoPrivateKey) => pem_private_key(data@) == Ok::<
                Option<(KeyFormat, Seq<u8>)>,
                Seq<char>,
            >(None),
            Err(e) => e matches TlsError::BadKey(msg) && pem_private_key(data@) == Err::<
                Option<(KeyFormat, Seq<u8>)>,
                Seq<char>,
            >(msg@),
        },
{
    accept_key(parse_private_key(data))
}

/// What two files lead to, one with the certificates and one with the key: the first error, in
/// this order, or the identity.
pub open spec fn files_outcome(
    cert_file: Result<Vec<u8>, String>,
    key_file: Result<Vec<u8>, String>,
) -> Result<(Seq<Seq<u8>>, (KeyFormat, Seq<u8>)), TlsErrorView> {
    match cert_file {
        Err(msg) => Err(TlsErrorView::Unreadable(msg@)),
        Ok(cert_data) => match certs_outcome(pem_certs(cert_data@)) {
            Err(e) => Err(e),
            Ok(certs) => match key_file {
                Err(msg) => Err(TlsErrorView::Unreadable(msg@)),
                Ok(key_data) => match key_outcome(pem_private_key(key_data@)) {
                    Err(e) => Err(e),
                    Ok(key) => Ok((certs, key)),
                },
            },
        },
    }
}

/// The identity of two PEM files, one with the certificates and one with the key. Of a file
/// there are its contents, or the message with which it could not be read.
pub fn load_files(cert_file: &Result<Vec<u8>, String>, key_file: &Result<Vec<u8>, String>) -> (r:
    Result<Identity, TlsError>)
    ensures
        identity_result(r) == files_outcome(*cert_file, *key_file),
        r matches Ok(i) ==> {
            &&& cert_file is Ok
            &&& key_file is Ok
            &&& pem_certs(cert_file->Ok_0@) == Ok::<Seq<Seq<u8>>, Seq<char>>(chain(i.certs))
            &&& pem_private_key(key_file->Ok_0@) == Ok::<
                Option<(KeyFormat, Seq<u8>)>,
                Seq<char>,
            >(Some((i.key.format, i.key.der@)))
        },
        cert_file is Ok && key_file is Ok && pem_certs(cert_file->Ok_0@) is Ok && (pem_private_key(
            key_file->Ok_0@,
        ) matches Ok(Some(_))) ==> r is Ok,
{
    let certs = match cert_file {
        Err(msg) => {
            return Err(TlsError::Unreadable(msg.clone()));
        },
        Ok(cert_data) => match load_certs(cert_data.as_slice()) {
            Err(e) => {
                return Err(e);
            },
            Ok(certs) => certs,
        },
    };
    match key_file {
        Err(msg) => Err(TlsError::Unreadable(msg.clone())),
        Ok(key_data) => match load_key(key_data.as_slice()) {
            Err(e) => Err(e),
            Ok(key) => Ok(Identity { certs, key }),
        },
    }
}

/// What a reply to the wish for a TLS server leads to.
pub open spec fn config_error(
    certs: Seq<Seq<u8>>,
    format: KeyFormat,
    der: Seq<u8>,
) -> Option<TlsErrorView> {
    if format == KeyFormat::Unknown {
        Some(TlsErrorView::BadKey("unknown private key format"@))
    } else {
        match refused_with(certs, format, der) {
            Some(msg) => Some(TlsErrorView::Unusable(msg)),
            None => None,
        }
    }
}

/// What a server needs to speak TLS under an identity, or the error.
pub fn build_server_config(identity: Identity) -> (r: Result<rustls::ServerConfig, TlsError>)
    ensures
        config_error(chain(identity.certs), identity.key.format, identity.key.der@) == match r {
            Ok(_) => None,
            Err(e) => Some(e@),
        },
        r matches Ok(config) ==> shows(
            config,
            chain(identity.certs),
            identity.key.format,
            identity.key.der@,
        ),
        r is Ok <==> !(identity.key.format is Unknown) && refused_with(
            chain(identity.certs),
            identity.key.format,
            identity.key.der@,
        ) is None,
        r matches Err(TlsError::Unusable(msg)) ==> refused_with(
            chain(identity.certs),
            identity.key.format,
            identity.key.der@,
        ) == Some(msg@),
{
    if identity.key.format == KeyFormat::Unknown {
        return Err(TlsError::BadKey("unknown private key format".to_owned()));
    }
    match server_config(identity.certs, identity.key) {
        Ok(config) => Ok(config),
        Err(msg) => Err(TlsError::Unusable(msg)),
    }
}

/// The identity of a certificate of the server's own making and its key, both in PEM form.
pub fn load_generated(cert_pem: &str, key_pem: &str) -> (r: Result<Identity, TlsError>)
    ensures
        identity_result(r) == identity_outcome(
            pem_certs(vstd::utf8::encode_utf8(cert_pem@)),
            pem_private_key(vstd::utf8::encode_utf8(key_pem@)),
        ),
        r matches Ok(i) ==> {
            &&& i.certs@.len() > 0
            &&& pem_certs(vstd::utf8::encode_utf8(cert_pem@)) == Ok::<Seq<Seq<u8>>, Seq<char>>(
                chain(i.certs),
            )
            &&& pem_private_key(vstd::utf8::encode_utf8(key_pem@)) == Ok::<
                Option<(KeyFormat, Seq<u8>)>,
                Seq<char>,
            >(Some((i.key.format, i.key.der@)))
        },
        (pem_certs(vstd::utf8::encode_utf8(cert_pem@)) matches Ok(certs) && certs.len() > 0) && (
        pem_private_key(vstd::utf8::encode_utf8(key_pem@)) matches Ok(Some(_))) ==> r is Ok,
{
    accept_identity(parse_certs(cert_pem.as_bytes()), parse_private_key(key_pem.as_bytes()))
}

/// The names that a certificate of the server's own making is for.
pub open spec fn own_names() -> Seq<Seq<char>> {
    seq![SELF_SIGNED_NAMES.0@, SELF_SIGNED_NAMES.1@]
}

/// A certificate of the server's own making and its key, both in PEM form. The certificate is
/// for [`SELF_SIGNED_NAMES`] and names [`SELF_SIGNED_COMMON_NAME`].
pub fn generate_self_signed_cert() -> (r: Result<(String, String), TlsError>)
    ensures
        match r {
            Ok((cert_pem, key_pem)) => issued_for(
                cert_pem@,
                key_pem@,
                own_names(),
                SELF_SIGNED_COMMON_NAME@,
            ) && issued_for(
                cert_pem@,
                key_pem@,
                seq!["localhost"@, "127.0.0.1"@],
                "WebPad"@,
            ),
            Err(e) => e is NotGenerated,
        },
{
    let mut names: Vec<String> = Vec::new();
    names.push(SELF_SIGNED_NAMES.0.to_owned());
    names.push(SELF_SIGNED_NAMES.1.to_owned());
    assert(names@.map_values(|name: String| name@) =~= own_names());
    match self_signed(names, SELF_SIGNED_COMMON_NAME.to_owned()) {
        Ok(made) => Ok(made),
        Err(msg) => Err(TlsError::NotGenerated(msg)),
    }
}

/// The identity of a fresh certificate of the server's own making.
pub fn self_signed_identity() -> (r: Result<Identity, TlsError>)
    ensures
        r matches Err(TlsError::NotGenerated(_)) || exists|cert_pem: Seq<char>, key_pem: Seq<char>|
            {
                &&& #[trigger] issued_for(
                    cert_pem,
                    key_pem,
                    own_names(),
                    SELF_SIGNED_COMMON_NAME@,
                )
                &&& identity_result(r) == identity_outcome(
                    pem_certs(vstd::utf8::encode_utf8(cert_pem)),
                    pem_private_key(vstd::utf8::encode_utf8(key_pem)),
                )
            },
{
    match generate_self_signed_cert() {
        Ok((cert_pem, key_pem)) => load_generated(cert_pem.as_str(), key_pem.as_str()),
        Err(e) => Err(e),
    }
}

/// What comes of an identity, or of the error in its place: a server that speaks TLS under this
/// identity and no other, or the error.
pub open spec fn speaks_as(
    r: Result<Option<rustls::ServerConfig>, TlsError>,
    identity: Result<(Seq<Seq<u8>>, (KeyFormat, Seq<u8>)), TlsErrorView>,
) -> bool {
    match identity {
        Err(e) => r is Err && r->Err_0@ == e,
        Ok((certs, (format, der))) => match config_error(certs, format, der) {
            Some(e) => r is Err && r->Err_0@ == e,
            None => r is Ok && r->Ok_0 is Some && shows(r->Ok_0->0, certs, format, der),
        },
    }
}

/// Files are taken whole: the chain is all that the certificate file holds, in its order, and the
/// key is that of the key file. Where both are there, they are taken.
pub proof fn lemma_files_are_taken_whole(
    cert_file: Result<Vec<u8>, String>,
    key_file: Result<Vec<u8>, String>,
    certs: Seq<Seq<u8>>,
    key: (KeyFormat, Seq<u8>),
)
    ensures
        files_outcome(cert_file, key_file) == Ok::<
            (Seq<Seq<u8>>, (KeyFormat, Seq<u8>)),
            TlsErrorView,
        >((certs, key)) <==> {
            &&& cert_file is Ok
            &&& key_file is Ok
            &&& pem_certs(cert_file->Ok_0@) == Ok::<Seq<Seq<u8>>, Seq<char>>(certs)
            &&& pem_private_key(key_file->Ok_0@) == Ok::<
                Option<(KeyFormat, Seq<u8>)>,
                Seq<char>,
            >(Some(key))
        },
{
}

/// Whatever goes wrong with the certificates or the key is the result, the certificates first.
pub proof fn lemma_file_errors(cert_file: Result<Vec<u8>, String>, key_file: Result<Vec<u8>, String>)
    ensures
        cert_file matches Err(msg) ==> files_outcome(cert_file, key_file) == Err::<
            (Seq<Seq<u8>>, (KeyFormat, Seq<u8>)),
            TlsErrorView,
        >(TlsErrorView::Unreadable(msg@)),
        cert_file matches Ok(c) ==> pem_certs(c@) matches Err(msg) ==> files_outcome(
            cert_file,
            key_file,
        ) == Err::<(Seq<Seq<u8>>, (KeyFormat, Seq<u8>)), TlsErrorView>(
            TlsErrorView::BadCertificate(msg),
        ),
        cert_file matches Ok(c) ==> pem_certs(c@) is Ok ==> {
            &&& key_file matches Err(msg) ==> files_outcome(cert_file, key_file) == Err::<
                (Seq<Seq<u8>>, (KeyFormat, Seq<u8>)),
                TlsErrorView,
            >(TlsErrorView::Unreadable(msg@))
            &&& key_file matches Ok(k) ==> pem_private_key(k@) matches Err(msg) ==> files_outcome(
                cert_file,
                key_file,
            ) == Err::<(Seq<Seq<u8>>, (KeyFormat, Seq<u8>)), TlsErrorView>(
                TlsErrorView::BadKey(msg),
            )
            &&& key_file matches Ok(k) ==> pem_private_key(k@) matches Ok(None) ==> files_outcome(
                cert_file,
                key_file,
            ) == Err::<(Seq<Seq<u8>>, (KeyFormat, Seq<u8>)), TlsErrorView>(
                TlsErrorView::NoPrivateKey,
            )
        },
{
}

/// A chain is all of its certificates, byte by byte and in their order, and so is a key all of
/// its bytes.
pub proof fn lemma_chain_is_whole(certs: Vec<Vec<u8>>, key: PrivateKey)
    ensures
        chain(certs).len() == certs@.len(),
        forall|i: int| 0 <= i < certs@.len() ==> #[trigger] chain(certs)[i] == certs@[i]@,
        key.parts() == (key.format, key.der@),
{
}

/// A certificate of the server's own making is taken whole with its key, if there is one at all.
pub proof fn lemma_generated_is_taken_whole(
    read_certs: Result<Seq<Seq<u8>>, Seq<char>>,
    read_key: Result<Option<(KeyFormat, Seq<u8>)>, Seq<char>>,
    certs: Seq<Seq<u8>>,
    key: (KeyFormat, Seq<u8>),
)
    ensures
        identity_outcome(read_certs, read_key) == Ok::<
            (Seq<Seq<u8>>, (KeyFormat, Seq<u8>)),
            TlsErrorView,
        >((certs, key)) <==> {
            &&& read_certs == Ok::<Seq<Seq<u8>>, Seq<char>>(certs)
            &&& certs.len() > 0
            &&& read_key == Ok::<Option<(KeyFormat, Seq<u8>)>, Seq<char>>(Some(key))
        },
{
}

/// A server speaks TLS under an identity only where it shows that very chain and signs with that
/// very key, and it does so wherever they are not refused.
pub proof fn lemma_speaks_as_itself(
    r: Result<Option<rustls::ServerConfig>, TlsError>,
    certs: Seq<Seq<u8>>,
    format: KeyFormat,
    der: Seq<u8>,
)
    requires
        speaks_as(
            r,
            Ok::<(Seq<Seq<u8>>, (KeyFormat, Seq<u8>)), TlsErrorView>((certs, (format, der))),
        ),
    ensures
        r is Ok ==> r->Ok_0 is Some && shows(r->Ok_0->0, certs, format, der),
        r is Ok <==> !(format is Unknown) && refused_with(certs, format, der) is None,
{
}

/// Where there is no identity, there is no server that speaks TLS.
pub proof fn lemma_no_identity_no_tls(
    r: Result<Option<rustls::ServerConfig>, TlsError>,
    error: TlsErrorView,
)
    requires
        speaks_as(r, Err::<(Seq<Seq<u8>>, (KeyFormat, Seq<u8>)), TlsErrorView>(error)),
    ensures
        r is Err,
        r->Err_0@ == error,
{
}

/// What the server needs to speak TLS by its plan, if it is to speak TLS at all. Where the plan
/// names files, nothing but what they hold will do: an error in them is the result. Of each
/// file there are its contents, or the message with which it could not be read; a plan that
/// names none takes no notice of them.
pub fn establish(
    plan: &TlsPlan,
    cert_file: &Result<Vec<u8>, String>,
    key_file: &Result<Vec<u8>, String>,
) -> (r: Result<Option<rustls::ServerConfig>, TlsError>)
    ensures
        match *plan {
            TlsPlan::Disabled => r is Ok && r->Ok_0 is None,
            TlsPlan::Files { .. } => speaks_as(r, files_outcome(*cert_file, *key_file)),
            TlsPlan::SelfSigned => r matches Err(TlsError::NotGenerated(_)) || exists|
                cert_pem: Seq<char>,
                key_pem: Seq<char>,
            |
                {
                    &&& #[trigger] issued_for(
                        cert_pem,
                        key_pem,
                        own_names(),
                        SELF_SIGNED_COMMON_NAME@,
                    )
                    &&& speaks_as(
                        r,
                        identity_outcome(
                            pem_certs(vstd::utf8::encode_utf8(cert_pem)),
                            pem_private_key(vstd::utf8::encode_utf8(key_pem)),
                        ),
                    )
                },
        },
        *plan is Files && r is Ok ==> {
            &&& r->Ok_0 is Some
            &&& cert_file is Ok
            &&& key_file is Ok
            &&& pem_certs(cert_file->Ok_0@) is Ok
            &&& pem_private_key(key_file->Ok_0@) is Ok
            &&& pem_private_key(key_file->Ok_0@)->Ok_0 is Some
            &&& ({
                let (format, der) = pem_private_key(key_file->Ok_0@)->Ok_0->0;
                shows(r->Ok_0->0, pem_certs(cert_file->Ok_0@)->Ok_0, format, der)
            })
        },
        *plan is SelfSigned && r is Ok ==> r->Ok_0 is Some,
{
    let identity = match plan {
        TlsPlan::Disabled => {
            return Ok(None);
        },
        TlsPlan::Files { .. } => load_files(cert_file, key_file),
        TlsPlan::SelfSigned => self_signed_identity(),
    };
    match identity {
        Err(e) => Err(e),
        Ok(identity) => match build_server_config(identity) {
            Ok(config) => Ok(Some(config)),
            Err(e) => Err(e),
        },
    }
}

} // verus!
