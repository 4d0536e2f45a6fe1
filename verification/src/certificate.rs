//! The X.509 certificate whose key signs a document.
use crate::error::{Error, Refusal};
use vstd::prelude::*;
use x509_parser::parse_x509_certificate;

verus! {

/// What was read from bytes that begin with an X.509 certificate.
#[derive(Debug, Clone, PartialEq, Eq)]
pub struct Certificate {
    /// The bytes behind the certificate.
    pub rest: Vec<u8>,
    /// The version field of the certificate, which is one less than the version.
    pub version: u32,
    /// The bits of the certificate's public key.
    pub public_key: Vec<u8>,
}

/// A [`Certificate`] as a mathematical value.
#[verifier::ext_equal]
pub struct CertificateView {
    pub rest: Seq<u8>,
    pub version: u32,
    pub public_key: Seq<u8>,
}

impl View for Certificate {
    type V = CertificateView;

    open spec fn view(&self) -> CertificateView {
        CertificateView {
            rest: self.rest@,
            version: self.version,
            public_key: self.public_key@,
        }
    }
}

/// The version field of a certificate of version 3.
pub const X509_V3: u32 = 2;

/// The certificate at the front of these bytes, or the text of the error that
/// `x509_parser::parse_x509_certificate` returns for them.
pub uninterp spec fn x509_certificate(der: Seq<u8>) -> Result<CertificateView, Seq<char>>;

/// The key of a certificate that [`accept_certificate`] accepts, or why it is refused.
pub open spec fn accepted_key(parsed: Result<CertificateView, Seq<char>>) -> Result<
    Seq<u8>,
    Refusal,
> {
    match parsed {
        Err(text) => Err(Refusal::Certificate(text)),
        Ok(cert) => if cert.rest.len() > 0 {
            Err(Refusal::TrailingBytes)
        } else if cert.version != X509_V3 {
            Err(Refusal::CertificateVersion)
        } else {
            Ok(cert.public_key)
        },
    }
}

/// Calls `x509_parser::parse_x509_certificate`, and moves the bytes behind the certificate, its
/// version and the bits of its public key into a [`Certificate`]. Claimed of it: these, and the
/// text of its error, depend on the bytes alone.
#[verifier::external_body]
pub(crate) fn parse_certificate(der: &[u8]) -> (r: Result<Certificate, String>)
    ensures
        x509_certificate(der@) == (match r {
            Ok(cert) => Ok::<CertificateView, Seq<char>>(cert@),
            Err(text) => Err::<CertificateView, Seq<char>>(text@),
        }),
{
    match parse_x509_certificate(der) {
        Ok((rest, cert)) => Ok(Certificate {
            rest: rest.to_vec(),
            version: cert.tbs_certificate.version.0,
            public_key: cert.tbs_certificate.subject_pki.subject_public_key.data.to_vec(),
        }),
        Err(err) => Err(format!("{err}")),
    }
}

/// Takes the public key out of a parsed certificate: nothing may follow the certificate, and it
/// must be of version 3.
pub fn accept_certificate(parsed: Result<Certificate, String>) -> (r: Result<Vec<u8>, Error>)
    ensures
        match (parsed, r) {
            (Err(text), _) => r == Err::<Vec<u8>, Error>(Error::Certificate(text)),
            (Ok(cert), Ok(key)) => key == cert.public_key && cert.rest@.len() == 0 && cert.version
                == X509_V3,
            (Ok(cert), Err(error)) => if cert.rest@.len() > 0 {
                error == Error::TrailingBytes
            } else {
                cert.version != X509_V3 && error == Error::CertificateVersion
            },
        },
{
    match parsed {
        Err(text) => Err(Error::Certificate(text)),
        Ok(cert) => if cert.rest.len() > 0 {
            Err(Error::TrailingBytes)
        } else if cert.version != X509_V3 {
            Err(Error::CertificateVersion)
        } else {
            Ok(cert.public_key)
        },
    }
}

} // verus!
