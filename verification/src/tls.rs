//! TLS settings: how the broker's certificate is checked and which
//! certificate the client presents. The PEM files are read by the caller;
//! their contents are parsed here.
use std::path::PathBuf;
use vstd::prelude::*;

verus! {

#[verifier::external_type_specification]
#[verifier::external_body]
pub struct ExPathBuf(std::path::PathBuf);

/// The DER sections that `rustls_pemfile::certs` finds in PEM text, or
/// `None` where it fails.
pub uninterp spec fn pem_certs(pem: Seq<u8>) -> Option<Seq<Seq<u8>>>;

/// The DER sections that `rustls_pemfile::rsa_private_keys` finds in PEM
/// text, or `None` where it fails.
pub uninterp spec fn pem_rsa_keys(pem: Seq<u8>) -> Option<Seq<Seq<u8>>>;

/// The DER sections that `rustls_pemfile::pkcs8_private_keys` finds in PEM
/// text, or `None` where it fails.
pub uninterp spec fn pem_pkcs8_keys(pem: Seq<u8>) -> Option<Seq<Seq<u8>>>;

/// `rustls_pemfile::certs` over PEM text held in memory: the certificates,
/// in order, or `None` for a read error.
#[verifier::external_body]
fn parse_pem_certs(pem: &[u8]) -> (r: Option<Vec<Vec<u8>>>)
    ensures
        r.deep_view() == pem_certs(pem@),
{
    let mut rd: &[u8] = pem;
    match rustls_pemfile::certs(&mut rd) {
        Ok(v) => Some(v),
        Err(_) => None,
    }
}

/// `rustls_pemfile::rsa_private_keys` over PEM text held in memory.
#[verifier::external_body]
fn parse_pem_rsa_keys(pem: &[u8]) -> (r: Option<Vec<Vec<u8>>>)
    ensures
        r.deep_view() == pem_rsa_keys(pem@),
{
    let mut rd: &[u8] = pem;
    match rustls_pemfile::rsa_private_keys(&mut rd) {
        Ok(v) => Some(v),
        Err(_) => None,
    }
}

/// `rustls_pemfile::pkcs8_private_keys` over PEM text held in memory.
#[verifier::external_body]
fn parse_pem_pkcs8_keys(pem: &[u8]) -> (r: Option<Vec<Vec<u8>>>)
    ensures
        r.deep_view() == pem_pkcs8_keys(pem@),
{
    let mut rd: &[u8] = pem;
    match rustls_pemfile::pkcs8_private_keys(&mut rd) {
        Ok(v) => Some(v),
        Err(_) => None,
    }
}

/// A PEM file could not be parsed.
#[derive(Debug, Clone, Copy, PartialEq, Eq, Structural)]
pub enum PemError {
    Invalid,
}

pub struct TlsConfig {
    verify_server: VerifyServer,
    verify_client: VerifyClient,
}

pub enum VerifyServer {
    CA { verify_dns_name: bool },
    SelfSigned { verify_dns_name: bool, ca_file: CertificateFile },
}

pub enum VerifyClient {
    No,
    Verify { certificate_file: CertificateFile, key_file: PrivateKeyFile },
}

pub enum CertificateFile {
    Pem(PathBuf),
}

pub enum PrivateKeyFile {
    Rsa(PathBuf),
    Pkcs8(PathBuf),
}

impl VerifyServer {
    /// Whether the broker's name is checked against its certificate.
    pub open spec fn spec_verify_dns_name(&self) -> bool {
        match *self {
            VerifyServer::CA { verify_dns_name } => verify_dns_name,
            VerifyServer::SelfSigned { verify_dns_name, .. } => verify_dns_name,
        }
    }

    /// The same settings with the DNS name check set to `verify`: the kind
    /// of check and a self-signed CA file are kept.
    pub open spec fn spec_with_verify_dns_name(self, verify: bool) -> VerifyServer {
        match self {
            VerifyServer::CA { .. } => VerifyServer::CA { verify_dns_name: verify },
            VerifyServer::SelfSigned { ca_file, .. } => VerifyServer::SelfSigned {
                verify_dns_name: verify,
                ca_file,
            },
        }
    }

    pub fn verify_dns_name(&self) -> (r: bool)
        ensures
            r == self.spec_verify_dns_name(),
    {
        match self {
            VerifyServer::CA { verify_dns_name } => *verify_dns_name,
            VerifyServer::SelfSigned { verify_dns_name, .. } => *verify_dns_name,
        }
    }

    pub fn set_verify_dns_name(&mut self, verify: bool)
        ensures
            *final(self) == old(self).spec_with_verify_dns_name(verify),
            final(self).spec_verify_dns_name() == verify,
    {
        match self {
            VerifyServer::CA { verify_dns_name } => *verify_dns_name = verify,
            VerifyServer::SelfSigned { verify_dns_name, .. } => *verify_dns_name = verify,
        }
    }
}

impl Default for VerifyClient {
    fn default() -> (r: Self)
        ensures
            r is No,
    {
        Self::No
    }
}

impl Default for VerifyServer {
    fn default() -> (r: Self)
        ensures
            r == (VerifyServer::CA { verify_dns_name: false }),
    {
        Self::CA { verify_dns_name: false }
    }
}

impl Default for TlsConfig {
    fn default() -> (r: Self)
        ensures
            r.spec_verify_server() == (VerifyServer::CA { verify_dns_name: false }),
            r.spec_verify_client() is No,
    {
        TlsConfig { verify_server: VerifyServer::default(), verify_client: VerifyClient::default() }
    }
}

impl TlsConfig {
    pub closed spec fn spec_verify_server(&self) -> VerifyServer {
        self.verify_server
    }

    pub closed spec fn spec_verify_client(&self) -> VerifyClient {
        self.verify_client
    }

    /// Checks the broker against the CA in a PEM file, keeping the DNS name
    /// check as it was.
    pub fn set_server_ca_pem_file(self, ca_file: PathBuf) -> (r: Self)
        ensures
            r.spec_verify_server() matches VerifyServer::SelfSigned { verify_dns_name, ca_file: f }
                && verify_dns_name == self.spec_verify_server().spec_verify_dns_name() && f
                == CertificateFile::Pem(ca_file),
            r.spec_verify_client() == self.spec_verify_client(),
    {
        let mut s = self;
        s.verify_server = VerifyServer::SelfSigned {
            verify_dns_name: s.verify_server.verify_dns_name(),
            ca_file: CertificateFile::Pem(ca_file),
        };
        s
    }

    pub fn set_verify_dns_name(self, verify: bool) -> (r: Self)
        ensures
            r.spec_verify_server() == self.spec_verify_server().spec_with_verify_dns_name(verify),
            r.spec_verify_server().spec_verify_dns_name() == verify,
            r.spec_verify_client() == self.spec_verify_client(),
    {
        let mut s = self;
        s.verify_server.set_verify_dns_name(verify);
        s
    }

    /// The settings, taken apart.
    pub fn into_parts(self) -> (r: (VerifyServer, VerifyClient))
        ensures
            r.0 == self.spec_verify_server(),
            r.1 == self.spec_verify_client(),
    {
        (self.verify_server, self.verify_client)
    }
}

impl CertificateFile {
    /// The certificates in the contents of this PEM file, in order.
    pub fn load(&self, contents: &[u8]) -> (r: Result<Vec<Vec<u8>>, PemError>)
        ensures
            match pem_certs(contents@) {
                Some(cs) => r matches Ok(v) && v.deep_view() == cs,
                None => r == Err::<Vec<Vec<u8>>, PemError>(PemError::Invalid),
            },
    {
        match self {
            CertificateFile::Pem(_) => match parse_pem_certs(contents) {
                Some(v) => Ok(v),
                None => Err(PemError::Invalid),
            },
        }
    }
}

impl PrivateKeyFile {
    /// The first key of the file's kind in the contents of this PEM file, if
    /// there is one.
    pub fn load(&self, contents: &[u8]) -> (r: Result<Option<Vec<u8>>, PemError>)
        ensures
            match (match *self {
                PrivateKeyFile::Rsa(_) => pem_rsa_keys(contents@),
                PrivateKeyFile::Pkcs8(_) => pem_pkcs8_keys(contents@),
            }) {
                Some(ks) => r matches Ok(k) && (if ks.len() >= 1 {
                    k matches Some(key) && key@ == ks[0]
                } else {
                    k is None
                }),
                None => r == Err::<Option<Vec<u8>>, PemError>(PemError::Invalid),
            },
    {
        let parsed = match self {
            PrivateKeyFile::Rsa(_) => parse_pem_rsa_keys(contents),
            PrivateKeyFile::Pkcs8(_) => parse_pem_pkcs8_keys(contents),
        };
        let mut datas = match parsed {
            Some(v) => v,
            None => return Err(PemError::Invalid),
        };
        if datas.len() >= 1 {
            let first = datas.remove(0);
            assert(first.deep_view() == first@);
            Ok(Some(first))
        } else {
            Ok(None)
        }
    }
}

} // verus!
