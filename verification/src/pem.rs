//! Reading the TLS identity of the two ends from PEM bytes: the certificate
//! chain that a client trusts, and the certificate chain and private key that
//! a server presents. Parsing is quinn's (through rustls' `pemfile` reader);
//! what it reads from given bytes is named, and the results are tied to it.
use vstd::prelude::*;

use crate::convert::{io_error_is_other, io_error_message, other_io_error};

verus! {

#[verifier::external_type_specification]
#[verifier::external_body]
pub struct ExCertificateChain(quinn::CertificateChain);

#[verifier::external_type_specification]
#[verifier::external_body]
pub struct ExPrivateKey(quinn::PrivateKey);

/// What `quinn::CertificateChain::from_pem` reads from these bytes: the DER
/// bytes of each certificate section, in order, or the text of its
/// `ParseError`.
pub uninterp spec fn pem_certs(pem: Seq<u8>) -> Result<Seq<Seq<u8>>, Seq<char>>;

/// What `quinn::PrivateKey::from_pem` reads from these bytes: the DER bytes
/// of the key it picks, or the text of its `ParseError`.
pub uninterp spec fn pem_key(pem: Seq<u8>) -> Result<Seq<u8>, Seq<char>>;

/// The DER bytes of the certificates a `quinn::CertificateChain` holds, in
/// order.
pub uninterp spec fn chain_certs(c: quinn::CertificateChain) -> Seq<Seq<u8>>;

/// The DER bytes of a `quinn::PrivateKey`.
pub uninterp spec fn key_der(k: quinn::PrivateKey) -> Seq<u8>;

/// `quinn::CertificateChain::from_pem`: the certificates of a PEM file, read
/// with rustls' `pemfile::certs`, a function of the bytes alone; a failure
/// is handed on as the text of its `ParseError`.
#[verifier::external_body]
fn certificate_chain_from_pem(pem: &[u8]) -> (r: Result<quinn::CertificateChain, String>)
    ensures
        match r {
            Ok(c) => pem_certs(pem@) == Ok::<Seq<Seq<u8>>, Seq<char>>(chain_certs(c)),
            Err(t) => pem_certs(pem@) == Err::<Seq<Seq<u8>>, Seq<char>>(t@),
        },
{
    match quinn::CertificateChain::from_pem(pem) {
        Ok(c) => Ok(c),
        Err(e) => Err(e.to_string()),
    }
}

/// `quinn::PrivateKey::from_pem`: the first PKCS #8 key of a PEM file, else
/// its first PKCS #1 key, a function of the bytes alone; a failure is handed
/// on as the text of its `ParseError`.
#[verifier::external_body]
fn private_key_from_pem(pem: &[u8]) -> (r: Result<quinn::PrivateKey, String>)
    ensures
        match r {
            Ok(k) => pem_key(pem@) == Ok::<Seq<u8>, Seq<char>>(key_der(k)),
            Err(t) => pem_key(pem@) == Err::<Seq<u8>, Seq<char>>(t@),
        },
{
    match quinn::PrivateKey::from_pem(pem) {
        Ok(k) => Ok(k),
        Err(e) => Err(e.to_string()),
    }
}

/// The certificate chain a client trusts, from the bytes of its PEM file: the
/// certificates of that file, or an I/O error of kind `Other` with the
/// parser's text.
pub fn ca_chain_from_pem(pem: &[u8]) -> (r: Result<quinn::CertificateChain, std::io::Error>)
    ensures
        match pem_certs(pem@) {
            Ok(ders) => r matches Ok(c) && chain_certs(c) == ders,
            Err(t) => r matches Err(e) && io_error_is_other(e) && io_error_message(e) == t,
        },
{
    match certificate_chain_from_pem(pem) {
        Ok(c) => Ok(c),
        Err(t) => Err(other_io_error(t.as_str())),
    }
}

/// The certificate chain and private key a server presents, from the bytes
/// of its two PEM files. The chain is read first; the first failure becomes
/// an I/O error of kind `Other` with the parser's text.
pub fn server_identity_from_pem(cert_pem: &[u8], key_pem: &[u8]) -> (r: Result<
    (quinn::CertificateChain, quinn::PrivateKey),
    std::io::Error,
>)
    ensures
        match (pem_certs(cert_pem@), pem_key(key_pem@)) {
            (Ok(ders), Ok(der)) => r matches Ok((c, k)) && chain_certs(c) == ders && key_der(k)
                == der,
            (Err(t), _) => r matches Err(e) && io_error_is_other(e) && io_error_message(e) == t,
            (Ok(_), Err(t)) => r matches Err(e) && io_error_is_other(e) && io_error_message(e)
                == t,
        },
{
    let cert = match certificate_chain_from_pem(cert_pem) {
        Ok(c) => c,
        Err(t) => return Err(other_io_error(t.as_str())),
    };
    let key = match private_key_from_pem(key_pem) {
        Ok(k) => k,
        Err(t) => return Err(other_io_error(t.as_str())),
    };
    Ok((cert, key))
}

} // verus!
