use vstd::prelude::*;
use vstd::string::*;

verus! {

/// The DER certificates that `rustls_pemfile::certs` finds in PEM text, or
/// `None` where it refuses the text.
pub uninterp spec fn pem_certs(pem: Seq<u8>) -> Option<Seq<Seq<u8>>>;

/// The DER RSA private keys that `rustls_pemfile::rsa_private_keys` finds in
/// PEM text, or `None` where it refuses the text.
pub uninterp spec fn pem_rsa_keys(pem: Seq<u8>) -> Option<Seq<Seq<u8>>>;

/// Relies on `rustls_pemfile::certs`: the certificate sections of the text,
/// decoded, or an error; read from memory, the outcome depends on the bytes alone.
#[verifier::external_body]
fn read_certs(pem: &[u8]) -> (r: Option<Vec<Vec<u8>>>)
    ensures
        r.deep_view() == pem_certs(pem@),
{
    rustls_pemfile::certs(&mut &pem[..]).ok()
}

/// Relies on `rustls_pemfile::rsa_private_keys`: the RSA key sections of the
/// text, decoded, or an error; read from memory, the outcome depends on the
/// bytes alone.
#[verifier::external_body]
fn read_rsa_keys(pem: &[u8]) -> (r: Option<Vec<Vec<u8>>>)
    ensures
        r.deep_view() == pem_rsa_keys(pem@),
{
    rustls_pemfile::rsa_private_keys(&mut &pem[..]).ok()
}

/// Why the TLS materials cannot be used.
#[derive(Debug, Clone, Copy, PartialEq, Eq, Structural)]
pub enum TlsError {
    /// The certificate file is no valid PEM.
    Certificates,
    /// The key file is no valid PEM.
    PrivateKey,
    /// The key file holds this many RSA keys instead of one.
    KeyCount(usize),
}

impl TlsError {
    /// The message shown when the server cannot start.
    pub fn message(&self) -> (r: String)
        ensures
            match self {
                TlsError::Certificates => r@ == "failed to load certificate"@,
                TlsError::PrivateKey => r@ == "failed to load private key"@,
                TlsError::KeyCount(_) => r@ == "expected a single private key"@,
            },
    {
        match self {
            TlsError::Certificates => String::from_str("failed to load certificate"),
            TlsError::PrivateKey => String::from_str("failed to load private key"),
            TlsError::KeyCount(_) => String::from_str("expected a single private key"),
        }
    }
}

/// The certificates in the text of a PEM file.
pub fn load_certs(pem: &[u8]) -> (r: Result<Vec<Vec<u8>>, TlsError>)
    ensures
        match pem_certs(pem@) {
            None => r == Err::<Vec<Vec<u8>>, TlsError>(TlsError::Certificates),
            Some(certs) => r matches Ok(v) && v.deep_view() == certs,
        },
{
    match read_certs(pem) {
        Some(certs) => Ok(certs),
        None => Err(TlsError::Certificates),
    }
}

/// The one RSA private key in the text of a PEM file.
pub fn load_private_key(pem: &[u8]) -> (r: Result<Vec<u8>, TlsError>)
    ensures
        match pem_rsa_keys(pem@) {
            None => r == Err::<Vec<u8>, TlsError>(TlsError::PrivateKey),
            Some(keys) => if keys.len() == 1 {
                r matches Ok(k) && k@ == keys[0]
            } else {
                r == Err::<Vec<u8>, TlsError>(TlsError::KeyCount(keys.len() as usize))
            },
        },
{
    match read_rsa_keys(pem) {
        None => Err(TlsError::PrivateKey),
        Some(mut keys) => {
            let ghost all = keys.deep_view();
            if keys.len() != 1 {
                return Err(TlsError::KeyCount(keys.len()));
            }
            let ghost before = keys@;
            match keys.pop() {
                Some(k) => {
                    assert(k == before[0]);
                    assert(k@ =~= all[0]);
                    Ok(k)
                },
                None => Err(TlsError::KeyCount(0)),
            }
        },
    }
}

} // verus!
