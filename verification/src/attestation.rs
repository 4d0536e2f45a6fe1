//! The validation of an attestation document: envelope, contents, chain and signature.
use crate::certificate::{accept_certificate, accepted_key, parse_certificate, x509_certificate};
use crate::chain::{
    accept_chain, accept_end_entity, end_entity, is_trust_anchor, parse_end_entity, server_chain,
    trust_anchor, verify_server_chain, SignatureAlgorithm, ALL_SIGALGS,
};
use crate::document::{
    accept_document, accepted_document, decode_document, nsm_document, AttestationDoc,
    DocumentView,
};
use crate::envelope::{
    accept_envelope, accept_signature, cose_algorithm, cose_payload, cose_signature,
    cose_signed_by, ec_point, envelope_protected, envelope_signature, is_ec_point,
    is_signature_text, open_envelope, signature_refusal, splits, verify_envelope, Curve, Parameter,
    ALGORITHM_LABEL, ES384, ES384_PART, NUMBER_LIMIT,
};
use crate::error::{Error, Refusal};
use crate::laws::first_fault_is_least;
use vstd::prelude::*;

verus! {

/// The curve on which the key of a document's certificate lies.
pub const KEY_CURVE: Curve = Curve::Secp384r1;

/// The algorithms of [`ALL_SIGALGS`] as a sequence.
pub open spec fn trusted_sigalgs() -> Seq<SignatureAlgorithm> {
    ALL_SIGALGS@
}

/// The document in an envelope, where the envelope can be opened and the document's contents
/// follow the rules.
pub open spec fn read_outcome(bytes: Seq<u8>) -> Result<DocumentView, Refusal> {
    match cose_payload(bytes) {
        Err(text) => Err(Refusal::Envelope(text)),
        Ok(payload) => accepted_document(nsm_document(payload)),
    }
}

/// The key of a certificate that a trusted chain ties to the root, by the intermediate
/// certificates given, at the time given.
pub open spec fn key_outcome(
    certificate: Seq<u8>,
    intermediates: Seq<Seq<u8>>,
    root_cert: Seq<u8>,
    unix_ts_sec: u64,
) -> Result<Seq<u8>, Refusal> {
    match end_entity(certificate) {
        Err(text) => Err(Refusal::EndEntity(text)),
        Ok(()) => match server_chain(
            certificate,
            trusted_sigalgs(),
            root_cert,
            intermediates,
            unix_ts_sec,
        ) {
            Err(text) => Err(Refusal::Chain(text)),
            Ok(()) => accepted_key(x509_certificate(certificate)),
        },
    }
}

/// The key of a document's certificate. The first certificate of the bundle, the claimed root,
/// has no part in it: the root given stands in its place.
pub open spec fn document_key(doc: DocumentView, root_cert: Seq<u8>, unix_ts_sec: u64) -> Result<
    Seq<u8>,
    Refusal,
> {
    key_outcome(doc.certificate, doc.cabundle.skip(1), root_cert, unix_ts_sec)
}

/// The document that validation hands out, or why it is refused.
pub open spec fn attestation_outcome(
    bytes: Seq<u8>,
    root_cert: Seq<u8>,
    unix_ts_sec: u64,
) -> Result<DocumentView, Refusal> {
    match read_outcome(bytes) {
        Err(refusal) => Err(refusal),
        Ok(doc) => match document_key(doc, root_cert, unix_ts_sec) {
            Err(refusal) => Err(refusal),
            Ok(key) => match signature_refusal(cose_signed_by(bytes, KEY_CURVE, key)) {
                Some(refusal) => Err(refusal),
                None => Ok(doc),
            },
        },
    }
}

/// Whether a key and the signature of an envelope can be read: the key is a point of the curve,
/// and a signature that claims to be made on the curve splits into two numbers.
pub open spec fn legible(bytes: Seq<u8>, key: Seq<u8>) -> bool {
    &&& ec_point(KEY_CURVE, key)
    &&& splits(cose_algorithm(bytes), cose_signature(bytes))
}

/// Whether validation comes to a decision. It does, unless the contents of the document follow the
/// rules, and it carries no bundle of certificates, the root is no certificate, or the document
/// passes every test up to the signature, but the key of its certificate or the signature cannot
/// be read.
pub open spec fn attestation_decides(
    bytes: Seq<u8>,
    root_cert: Seq<u8>,
    unix_ts_sec: u64,
) -> bool {
    match read_outcome(bytes) {
        Err(_) => true,
        Ok(doc) => {
            &&& doc.cabundle.len() > 0
            &&& trust_anchor(root_cert)
            &&& match document_key(doc, root_cert, unix_ts_sec) {
                Err(_) => true,
                Ok(key) => legible(bytes, key),
            }
        },
    }
}

/// Whether this is what validation returns: the document, or why it is refused. A document is only
/// handed out where the envelope names the algorithm of P-384 keys, and a signature that cannot be
/// tried comes with the text that belongs to the algorithm named.
pub open spec fn attestation_decision(
    bytes: Seq<u8>,
    root_cert: Seq<u8>,
    unix_ts_sec: u64,
    r: Result<AttestationDoc, Error>,
) -> bool {
    &&& attestation_outcome(bytes, root_cert, unix_ts_sec) == (match r {
        Ok(doc) => Ok::<DocumentView, Refusal>(doc@),
        Err(error) => Err::<DocumentView, Refusal>(error@),
    })
    &&& r is Ok ==> cose_algorithm(bytes) == Parameter::Integer(ES384)
    &&& r matches Ok(doc) ==> doc.cabundle@.len() > 0
    &&& r matches Err(Error::Signature(text)) ==> is_signature_text(cose_algorithm(bytes), text@)
}

/// A document that is read from a signed envelope.
pub trait AttestationProcess: Sized {
    /// Whether reading comes to a decision on these arguments.
    spec fn decides(bytes: Seq<u8>, root_cert: Seq<u8>, unix_ts_sec: u64) -> bool;

    /// Whether this is the decision on these arguments.
    spec fn decision(
        bytes: Seq<u8>,
        root_cert: Seq<u8>,
        unix_ts_sec: u64,
        r: Result<Self, Error>,
    ) -> bool;

    /// Reads the document in an envelope, and trusts it if a chain of certificates that is valid
    /// at the time `unix_ts_sec`, in seconds since the Unix epoch, ties the key that signed the
    /// envelope to the root certificate.
    fn from_bytes(bytes: &[u8], root_cert: &[u8], unix_ts_sec: u64) -> (r: Result<Self, Error>)
        requires
            Self::decides(bytes@, root_cert@, unix_ts_sec),
        ensures
            Self::decision(bytes@, root_cert@, unix_ts_sec, r),
    ;
}

/// Opens an envelope, and reads the document in it.
fn read_document(bytes: &[u8]) -> (r: Result<AttestationDoc, Error>)
    ensures
        read_outcome(bytes@) == (match r {
            Ok(doc) => Ok::<DocumentView, Refusal>(doc@),
            Err(error) => Err::<DocumentView, Refusal>(error@),
        }),
        r is Ok ==> cose_payload(bytes@) is Ok,
        r matches Err(error) ==> error !is Signature,
{
    match accept_envelope(open_envelope(bytes)) {
        Err(error) => Err(error),
        Ok(payload) => {
            let decoded = decode_document(payload.as_slice());
            proof {
                let pcrs = decoded->Ok_0@.pcrs;
                first_fault_is_least(pcrs, 0, pcrs.len() as usize);
            }
            accept_document(decoded)
        },
    }
}

/// Ties the certificate of a document to the root, and takes its key.
fn read_key(doc: &AttestationDoc, root_cert: &[u8], unix_ts_sec: u64) -> (r: Result<
    Vec<u8>,
    Error,
>)
    requires
        doc.cabundle@.len() > 0,
        trust_anchor(root_cert@),
    ensures
        document_key(doc@, root_cert@, unix_ts_sec) == (match r {
            Ok(key) => Ok::<Seq<u8>, Refusal>(key@),
            Err(error) => Err::<Seq<u8>, Refusal>(error@),
        }),
{
    let certificate = doc.certificate.as_slice();
    if let Err(error) = accept_end_entity(parse_end_entity(certificate)) {
        return Err(error);
    }
    let intermediates = doc.intermediates();
    let sigalgs = ALL_SIGALGS;
    let verified = verify_server_chain(
        certificate,
        sigalgs.as_slice(),
        root_cert,
        intermediates.as_slice(),
        unix_ts_sec,
    );
    if let Err(error) = accept_chain(verified) {
        return Err(error);
    }
    accept_certificate(parse_certificate(certificate))
}

impl AttestationProcess for AttestationDoc {
    open spec fn decides(bytes: Seq<u8>, root_cert: Seq<u8>, unix_ts_sec: u64) -> bool {
        attestation_decides(bytes, root_cert, unix_ts_sec)
    }

    open spec fn decision(
        bytes: Seq<u8>,
        root_cert: Seq<u8>,
        unix_ts_sec: u64,
        r: Result<AttestationDoc, Error>,
    ) -> bool {
        attestation_decision(bytes, root_cert, unix_ts_sec, r)
    }

    fn from_bytes(bytes: &[u8], root_cert: &[u8], unix_ts_sec: u64) -> (r: Result<
        AttestationDoc,
        Error,
    >) {
        let doc = match read_document(bytes) {
            Ok(doc) => doc,
            Err(error) => return Err(error),
        };
        let key = match read_key(&doc, root_cert, unix_ts_sec) {
            Ok(key) => key,
            Err(error) => return Err(error),
        };
        match accept_signature(verify_envelope(bytes, KEY_CURVE, key.as_slice())) {
            Ok(()) => Ok(doc),
            Err(error) => Err(error),
        }
    }
}

/// Whether a key and the signature of an envelope can be read.
fn is_legible(bytes: &[u8], key: &[u8]) -> (r: bool)
    requires
        cose_payload(bytes@) is Ok,
    ensures
        r == legible(bytes@, key@),
{
    if !is_ec_point(KEY_CURVE, key) {
        return false;
    }
    match envelope_protected(bytes, ALGORITHM_LABEL) {
        Parameter::Integer(algorithm) => if algorithm != ES384 {
            true
        } else {
            let len: usize = envelope_signature(bytes).len();
            ES384_PART <= len && len - ES384_PART <= NUMBER_LIMIT
        },
        _ => true,
    }
}

impl AttestationDoc {
    /// Like [`AttestationProcess::from_bytes`], on any arguments: `None` where validation comes to
    /// no decision. A chain of certificates is searched for once at most.
    pub fn try_from_bytes(bytes: &[u8], root_cert: &[u8], unix_ts_sec: u64) -> (r: Option<
        Result<AttestationDoc, Error>,
    >)
        ensures
            r is Some <==> attestation_decides(bytes@, root_cert@, unix_ts_sec),
            r matches Some(decision) ==> attestation_decision(
                bytes@,
                root_cert@,
                unix_ts_sec,
                decision,
            ),
    {
        let doc = match read_document(bytes) {
            Ok(doc) => doc,
            Err(error) => return Some(Err(error)),
        };
        if doc.cabundle.len() == 0 || !is_trust_anchor(root_cert) {
            return None;
        }
        if let Ok(key) = accept_certificate(parse_certificate(doc.certificate.as_slice())) {
            if !is_legible(bytes, key.as_slice()) {
                // The key or the signature is only read where the chain is trusted.
                return match read_key(&doc, root_cert, unix_ts_sec) {
                    Ok(_) => None,
                    Err(error) => Some(Err(error)),
                };
            }
        }
        Some(<AttestationDoc as AttestationProcess>::from_bytes(bytes, root_cert, unix_ts_sec))
    }
}

} // verus!
