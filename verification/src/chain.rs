//! Chains of certificates from a leaf to a trusted root.
use crate::error::Error;
use vstd::prelude::*;
use webpki::trust_anchor_util::cert_der_as_trust_anchor;
use webpki::{EndEntityCert, TLSServerTrustAnchors, Time};

verus! {

/// An algorithm with which an authority signs certificates.
#[derive(Debug, Clone, Copy, PartialEq, Eq, Structural)]
pub enum SignatureAlgorithm {
    EcdsaP256Sha256,
    EcdsaP256Sha384,
    EcdsaP384Sha256,
    EcdsaP384Sha384,
    Ed25519,
}

/// The algorithms that are trusted in a chain.
pub const ALL_SIGALGS: [SignatureAlgorithm; 5] = [
    SignatureAlgorithm::EcdsaP256Sha256,
    SignatureAlgorithm::EcdsaP256Sha384,
    SignatureAlgorithm::EcdsaP384Sha256,
    SignatureAlgorithm::EcdsaP384Sha384,
    SignatureAlgorithm::Ed25519,
];

/// Whether `webpki::trust_anchor_util::cert_der_as_trust_anchor` makes a trust anchor of this
/// certificate.
pub uninterp spec fn trust_anchor(der: Seq<u8>) -> bool;

/// Whether `webpki::EndEntityCert::from` takes this certificate, or the text of its error.
pub uninterp spec fn end_entity(der: Seq<u8>) -> Result<(), Seq<char>>;

/// Whether `webpki::EndEntityCert::verify_is_valid_tls_server_cert` finds a chain that is valid at
/// a time, given in seconds since the Unix epoch, from a certificate over some of the intermediate
/// ones to a root, each signed with one of the algorithms, or the text of its error.
pub uninterp spec fn server_chain(
    der: Seq<u8>,
    sigalgs: Seq<SignatureAlgorithm>,
    root: Seq<u8>,
    intermediates: Seq<Seq<u8>>,
    unix_ts_sec: u64,
) -> Result<(), Seq<char>>;

/// Calls `webpki::trust_anchor_util::cert_der_as_trust_anchor`. Claimed of it: whether it returns
/// an anchor depends on the bytes alone.
#[verifier::external_body]
pub(crate) fn is_trust_anchor(der: &[u8]) -> (r: bool)
    ensures
        r == trust_anchor(der@),
{
    cert_der_as_trust_anchor(der).is_ok()
}

/// Calls `webpki::EndEntityCert::from`. Claimed of it: whether it returns a certificate, and the
/// text of its error, depend on the bytes alone.
#[verifier::external_body]
pub(crate) fn parse_end_entity(der: &[u8]) -> (r: Result<(), String>)
    ensures
        end_entity(der@) == (match r {
            Ok(()) => Ok::<(), Seq<char>>(()),
            Err(text) => Err::<(), Seq<char>>(text@),
        }),
{
    match EndEntityCert::from(der) {
        Ok(_) => Ok(()),
        Err(err) => Err(format!("{err}")),
    }
}

/// Calls `webpki::EndEntityCert::verify_is_valid_tls_server_cert`, with the one trust anchor that
/// `webpki::trust_anchor_util::cert_der_as_trust_anchor` makes of the root. Claimed of it: whether
/// it finds a chain, and the text of its error, depend on the arguments alone.
#[verifier::external_body]
pub(crate) fn verify_server_chain(
    der: &[u8],
    sigalgs: &[SignatureAlgorithm],
    root: &[u8],
    intermediates: &[&[u8]],
    unix_ts_sec: u64,
) -> (r: Result<(), String>)
    requires
        end_entity(der@) is Ok,
        trust_anchor(root@),
    ensures
        server_chain(
            der@,
            sigalgs@,
            root@,
            intermediates@.map_values(|der: &[u8]| der@),
            unix_ts_sec,
        ) == (match r {
            Ok(()) => Ok::<(), Seq<char>>(()),
            Err(text) => Err::<(), Seq<char>>(text@),
        }),
{
    let anchors = [cert_der_as_trust_anchor(root).unwrap()];
    let algs: Vec<&webpki::SignatureAlgorithm> = sigalgs.iter().map(|alg| match alg {
        SignatureAlgorithm::EcdsaP256Sha256 => &webpki::ECDSA_P256_SHA256,
        SignatureAlgorithm::EcdsaP256Sha384 => &webpki::ECDSA_P256_SHA384,
        SignatureAlgorithm::EcdsaP384Sha256 => &webpki::ECDSA_P384_SHA256,
        SignatureAlgorithm::EcdsaP384Sha384 => &webpki::ECDSA_P384_SHA384,
        SignatureAlgorithm::Ed25519 => &webpki::ED25519,
    }).collect();
    let time = Time::from_seconds_since_unix_epoch(unix_ts_sec);
    let cert = EndEntityCert::from(der).unwrap();
    match cert.verify_is_valid_tls_server_cert(&algs, &TLSServerTrustAnchors(&anchors), intermediates, time) {
        Ok(()) => Ok(()),
        Err(err) => Err(format!("{err}")),
    }
}

/// Turns what parsing an end-entity certificate gave into an error with the text, where it failed.
pub fn accept_end_entity(parsed: Result<(), String>) -> (r: Result<(), Error>)
    ensures
        r == (match parsed {
            Ok(()) => Ok::<(), Error>(()),
            Err(text) => Err::<(), Error>(Error::EndEntity(text)),
        }),
{
    match parsed {
        Ok(()) => Ok(()),
        Err(text) => Err(Error::EndEntity(text)),
    }
}

/// Turns what the search for a chain gave into an error with the text, where none was found.
pub fn accept_chain(verified: Result<(), String>) -> (r: Result<(), Error>)
    ensures
        r == (match verified {
            Ok(()) => Ok::<(), Error>(()),
            Err(text) => Err::<(), Error>(Error::Chain(text)),
        }),
{
    match verified {
        Ok(()) => Ok(()),
        Err(text) => Err(Error::Chain(text)),
    }
}

} // verus!
