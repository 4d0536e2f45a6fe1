//! The COSE Sign1 envelope around a document, and its signature.
use crate::error::{Error, Refusal};
use aws_nitro_enclaves_cose::crypto::Openssl;
use aws_nitro_enclaves_cose::CoseSign1;
use openssl::bn::BigNumContext;
use openssl::ec::{EcGroup, EcKey, EcPoint};
use openssl::nid::Nid;
use openssl::pkey::PKey;
use serde_bytes::ByteBuf;
use serde_cbor::Value;
use vstd::prelude::*;

verus! {

/// An elliptic curve on which keys lie.
#[derive(Debug, Clone, Copy, PartialEq, Eq, Structural)]
pub enum Curve {
    /// NIST P-384.
    Secp384r1,
}

/// What the header of an envelope holds under a label.
#[derive(Debug, Clone, Copy, PartialEq, Eq, Structural)]
pub enum Parameter {
    /// Nothing.
    Absent,
    /// This integer.
    Integer(i128),
    /// Something that is no integer.
    Other,
}

/// The label of the signature algorithm in the header of an envelope.
pub const ALGORITHM_LABEL: i64 = 1;

/// The number by which COSE names ECDSA with SHA-384, the algorithm of P-384 keys.
pub const ES384: i128 = -35;

/// How many bytes either number of a P-384 signature takes.
pub const ES384_PART: usize = 48;

/// How many bytes OpenSSL takes for one number.
pub const NUMBER_LIMIT: usize = 0x7fff_ffff;

/// The payload of the envelope that these bytes encode, or the text of the error that
/// `aws_nitro_enclaves_cose::CoseSign1::from_bytes` returns for them.
pub uninterp spec fn cose_payload(envelope: Seq<u8>) -> Result<Seq<u8>, Seq<char>>;

/// What the protected header of an envelope holds under this label.
pub uninterp spec fn cose_protected(envelope: Seq<u8>, label: i64) -> Parameter;

/// The signature in an envelope.
pub uninterp spec fn cose_signature(envelope: Seq<u8>) -> Seq<u8>;

/// Whether `openssl::ec::EcPoint::from_bytes` makes a point of the curve of these bytes.
pub uninterp spec fn ec_point(curve: Curve, key: Seq<u8>) -> bool;

/// Whether `aws_nitro_enclaves_cose::CoseSign1::verify_signature` finds the signature in an
/// envelope to be that of this key, or `None` where the signature cannot be tried.
pub uninterp spec fn cose_signed_by(envelope: Seq<u8>, curve: Curve, key: Seq<u8>) -> Option<bool>;

/// What the protected header of an envelope holds as the number of the signature algorithm.
pub open spec fn cose_algorithm(envelope: Seq<u8>) -> Parameter {
    cose_protected(envelope, ALGORITHM_LABEL)
}

/// Whether a signature made with this algorithm splits into the two numbers of a P-384 signature.
/// Of another algorithm nothing is asked, for no P-384 key can have made the signature.
pub open spec fn splits(algorithm: Parameter, signature: Seq<u8>) -> bool {
    algorithm == Parameter::Integer(ES384) ==> ES384_PART <= signature.len() <= ES384_PART
        + NUMBER_LIMIT
}

/// Whether this is how it is put that a signature cannot be tried. Where the header names no
/// algorithm the text is fixed, else only its beginning: OpenSSL words the rest, with line numbers
/// of its own source.
pub open spec fn is_signature_text(algorithm: Parameter, text: Seq<char>) -> bool {
    match algorithm {
        Parameter::Absent => text
            == "Specification error: Protected Header does not contain a valid Signature Algorithm specification"@,
        Parameter::Other => text
            == "Specification error: Protected Header contains invalid Signature Algorithm specification"@,
        Parameter::Integer(_) => "Signature error: "@.is_prefix_of(text),
    }
}

/// Whether trying a signature gave no error, or one that is put as [`is_signature_text`] says.
pub open spec fn is_worded(algorithm: Parameter, tried: Result<bool, String>) -> bool {
    tried matches Err(text) ==> is_signature_text(algorithm, text@)
}

/// What trying a signature gave, without the text of the error.
pub open spec fn signed(tried: Result<bool, String>) -> Option<bool> {
    match tried {
        Ok(signed) => Some(signed),
        Err(_) => None,
    }
}

/// What [`accept_signature`] returns.
pub open spec fn signature_refusal(signed: Option<bool>) -> Option<Refusal> {
    match signed {
        None => Some(Refusal::Signature),
        Some(false) => Some(Refusal::SignatureMismatch),
        Some(true) => None,
    }
}

/// Calls `aws_nitro_enclaves_cose::CoseSign1::from_bytes`, then its `get_payload` without a key,
/// which hands the payload out and tries no signature. Claimed of it: the payload, or the text of
/// the error, depends on the bytes alone.
#[verifier::external_body]
pub(crate) fn open_envelope(envelope: &[u8]) -> (r: Result<Vec<u8>, String>)
    ensures
        cose_payload(envelope@) == (match r {
            Ok(payload) => Ok::<Seq<u8>, Seq<char>>(payload@),
            Err(text) => Err::<Seq<u8>, Seq<char>>(text@),
        }),
{
    match CoseSign1::from_bytes(envelope) {
        Ok(cose) => match cose.get_payload::<Openssl>(None) {
            Ok(payload) => Ok(payload),
            Err(err) => Err(format!("{err}")),
        },
        Err(err) => Err(format!("{err}")),
    }
}

/// Calls `aws_nitro_enclaves_cose::CoseSign1::get_protected_and_payload` without a key, and looks
/// the label up in the header that it returns. Claimed of it: what the header holds under the
/// label depends on the bytes and the label alone.
#[verifier::external_body]
pub(crate) fn envelope_protected(envelope: &[u8], label: i64) -> (r: Parameter)
    requires
        cose_payload(envelope@) is Ok,
    ensures
        r == cose_protected(envelope@, label),
{
    let cose = CoseSign1::from_bytes(envelope).unwrap();
    let (protected, _) = cose.get_protected_and_payload::<Openssl>(None).unwrap();
    match protected.get(&Value::from(label)) {
        Some(Value::Integer(number)) => Parameter::Integer(*number),
        Some(_) => Parameter::Other,
        None => Parameter::Absent,
    }
}

/// Calls `serde_cbor::from_slice` on what `aws_nitro_enclaves_cose::CoseSign1::as_bytes` writes:
/// an array of the protected header, the other header, the payload and the signature. Claimed of
/// it: the signature depends on the bytes alone.
#[verifier::external_body]
pub(crate) fn envelope_signature(envelope: &[u8]) -> (r: Vec<u8>)
    requires
        cose_payload(envelope@) is Ok,
    ensures
        r@ == cose_signature(envelope@),
{
    let cose = CoseSign1::from_bytes(envelope).unwrap();
    let bytes = cose.as_bytes(false).unwrap();
    let parts: (ByteBuf, Value, ByteBuf, ByteBuf) = serde_cbor::from_slice(&bytes).unwrap();
    parts.3.into_vec()
}

/// Calls `openssl::ec::EcPoint::from_bytes`. Claimed of it: whether it returns a point depends on
/// the curve and the bytes alone.
#[verifier::external_body]
pub(crate) fn is_ec_point(curve: Curve, key: &[u8]) -> (r: bool)
    ensures
        r == ec_point(curve, key@),
{
    let nid = match curve { Curve::Secp384r1 => Nid::SECP384R1 };
    let group = EcGroup::from_curve_name(nid).unwrap();
    let mut ctx = BigNumContext::new().unwrap();
    EcPoint::from_bytes(&group, key, &mut ctx).is_ok()
}

/// Calls `aws_nitro_enclaves_cose::CoseSign1::verify_signature` with the key that
/// `openssl::ec::EcKey::from_public_key` and `openssl::pkey::PKey::try_from` make of the point.
/// Claimed of it: whether the signature is that of the key, or cannot be tried, depends on the
/// envelope, the curve and the key alone; it cannot be tried where the protected header holds no
/// integer as the algorithm, and is not that of the key where the header names another one than
/// that of the curve; and the text that comes with a signature that cannot be tried is one of
/// `CoseError::SpecificationError` where the header holds no such integer, else one of
/// `CoseError::SignatureError`. What follows the first words of the latter is left open, for
/// OpenSSL words it. Claimed with this: OpenSSL makes a key of every point of the curve.
#[verifier::external_body]
pub(crate) fn verify_envelope(envelope: &[u8], curve: Curve, key: &[u8]) -> (r: Result<bool, String>)
    requires
        cose_payload(envelope@) is Ok,
        splits(cose_algorithm(envelope@), cose_signature(envelope@)),
        ec_point(curve, key@),
    ensures
        signed(r) == cose_signed_by(envelope@, curve, key@),
        cose_algorithm(envelope@) !is Integer ==> signed(r) is None,
        cose_algorithm(envelope@) is Integer && cose_algorithm(envelope@) != Parameter::Integer(
            ES384,
        ) ==> signed(r) == Some(false),
        is_worded(cose_algorithm(envelope@), r),
{
    let cose = CoseSign1::from_bytes(envelope).unwrap();
    let nid = match curve { Curve::Secp384r1 => Nid::SECP384R1 };
    let group = EcGroup::from_curve_name(nid).unwrap();
    let mut ctx = BigNumContext::new().unwrap();
    let point = EcPoint::from_bytes(&group, key, &mut ctx).unwrap();
    let key = EcKey::from_public_key(&group, &point).unwrap();
    match PKey::try_from(key) {
        Ok(key) => match cose.verify_signature::<Openssl>(&key) {
            Ok(signed) => Ok(signed),
            Err(err) => Err(format!("{err}")),
        },
        Err(err) => Err(format!("{err}")),
    }
}

/// Turns what opening an envelope gave into its payload, or an error with the text.
pub fn accept_envelope(opened: Result<Vec<u8>, String>) -> (r: Result<Vec<u8>, Error>)
    ensures
        r == (match opened {
            Ok(payload) => Ok::<Vec<u8>, Error>(payload),
            Err(text) => Err::<Vec<u8>, Error>(Error::Envelope(text)),
        }),
{
    match opened {
        Ok(payload) => Ok(payload),
        Err(text) => Err(Error::Envelope(text)),
    }
}

/// Turns what trying a signature gave into a decision: only a signature that is that of the key
/// is accepted.
pub fn accept_signature(tried: Result<bool, String>) -> (r: Result<(), Error>)
    ensures
        r == (match tried {
            Err(text) => Err::<(), Error>(Error::Signature(text)),
            Ok(false) => Err::<(), Error>(Error::SignatureMismatch),
            Ok(true) => Ok::<(), Error>(()),
        }),
{
    match tried {
        Err(text) => Err(Error::Signature(text)),
        Ok(signed) => if signed {
            Ok(())
        } else {
            Err(Error::SignatureMismatch)
        },
    }
}

} // verus!
