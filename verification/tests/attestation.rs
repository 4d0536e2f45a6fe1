//! Whole documents, signed by certificates that are made for each test.
use aws_nitro_enclaves_cose::crypto::Openssl;
use aws_nitro_enclaves_cose::header_map::HeaderMap;
use aws_nitro_enclaves_cose::CoseSign1;
use aws_nitro_enclaves_nsm_api::api;
use nitro_attestation::attestation::AttestationProcess;
use nitro_attestation::document::{AttestationDoc, Digest};
use nitro_attestation::error::Error;
use nitro_attestation::root::AWS_ROOT_CERT;
use openssl::asn1::Asn1Time;
use openssl::bn::{BigNum, BigNumContext};
use openssl::ec::{EcGroup, EcKey, PointConversionForm};
use openssl::hash::MessageDigest;
use openssl::nid::Nid;
use openssl::pkey::{PKey, Private, Public};
use openssl::sign::Signer;
use openssl::x509::extension::{BasicConstraints, KeyUsage};
use openssl::x509::{X509Builder, X509Name, X509NameBuilder};
use serde_bytes::ByteBuf;
use serde_cbor::Value;
use std::collections::BTreeMap;

/// 5 March 2021, 17:01:49 GMT.
const LEAF_NOT_BEFORE: i64 = 1614963709;
/// 5 March 2021, 20:01:49 GMT.
const LEAF_NOT_AFTER: i64 = 1614974509;
/// 5 March 2021, 18:00:00 GMT.
const NOW: u64 = 1614967200;

const ROOT_NOT_BEFORE: i64 = 1572269285;
const ROOT_NOT_AFTER: i64 = 2200000000;

fn name(common_name: &str) -> X509Name {
    let mut builder = X509NameBuilder::new().unwrap();
    builder.append_entry_by_text("O", "Example").unwrap();
    builder.append_entry_by_text("CN", common_name).unwrap();
    builder.build()
}

fn key_on(curve: Nid) -> PKey<Private> {
    let group = EcGroup::from_curve_name(curve).unwrap();
    PKey::from_ec_key(EcKey::generate(&group).unwrap()).unwrap()
}

fn certificate(
    subject: &str,
    key: &PKey<Private>,
    issuer: &str,
    issuer_key: &PKey<Private>,
    is_ca: bool,
) -> Vec<u8> {
    let mut builder = X509Builder::new().unwrap();
    builder.set_version(2).unwrap();
    let serial = BigNum::from_u32(1 + subject.len() as u32).unwrap().to_asn1_integer().unwrap();
    builder.set_serial_number(&serial).unwrap();
    builder.set_subject_name(&name(subject)).unwrap();
    builder.set_issuer_name(&name(issuer)).unwrap();
    let (from, to) = if is_ca {
        (ROOT_NOT_BEFORE, ROOT_NOT_AFTER)
    } else {
        (LEAF_NOT_BEFORE, LEAF_NOT_AFTER)
    };
    builder.set_not_before(&Asn1Time::from_unix(from).unwrap()).unwrap();
    builder.set_not_after(&Asn1Time::from_unix(to).unwrap()).unwrap();
    builder.set_pubkey(key).unwrap();
    let mut constraints = BasicConstraints::new();
    constraints.critical();
    let mut usage = KeyUsage::new();
    usage.critical();
    if is_ca {
        constraints.ca();
        usage.key_cert_sign();
    } else {
        usage.digital_signature();
    }
    builder.append_extension(constraints.build().unwrap()).unwrap();
    builder.append_extension(usage.build().unwrap()).unwrap();
    builder.sign(issuer_key, MessageDigest::sha384()).unwrap();
    builder.build().to_der().unwrap()
}

/// A root, two authorities below it, and a leaf.
struct Authority {
    root: Vec<u8>,
    regional: Vec<u8>,
    zonal: Vec<u8>,
    zonal_key: PKey<Private>,
    leaf: Vec<u8>,
    leaf_key: PKey<Private>,
}

fn authority_with_leaf_on(curve: Nid) -> Authority {
    let root_key = key_on(Nid::SECP384R1);
    let regional_key = key_on(Nid::SECP384R1);
    let zonal_key = key_on(Nid::SECP384R1);
    let leaf_key = key_on(curve);
    Authority {
        root: certificate("root", &root_key, "root", &root_key, true),
        regional: certificate("regional", &regional_key, "root", &root_key, true),
        zonal: certificate("zonal", &zonal_key, "regional", &regional_key, true),
        leaf: certificate("leaf", &leaf_key, "zonal", &zonal_key, false),
        zonal_key,
        leaf_key,
    }
}

fn authority() -> Authority {
    authority_with_leaf_on(Nid::SECP384R1)
}

fn document(authority: &Authority) -> api::AttestationDoc {
    let pcrs: BTreeMap<usize, Vec<u8>> = (0..16).map(|i| (i, vec![i as u8 + 0x50; 48])).collect();
    api::AttestationDoc::new(
        "i-0123456789abcdef0-enc0123456789abcde".to_string(),
        api::Digest::SHA384,
        1614967200123,
        pcrs,
        authority.leaf.clone(),
        vec![authority.root.clone(), authority.regional.clone(), authority.zonal.clone()],
        Some(b"user data".to_vec()),
        Some(b"nonce".to_vec()),
        Some(b"public key".to_vec()),
    )
}

fn seal(payload: &[u8], key: &PKey<Private>) -> Vec<u8> {
    CoseSign1::new::<Openssl>(payload, &HeaderMap::new(), key).unwrap().as_bytes(false).unwrap()
}

fn signed(doc: &api::AttestationDoc, authority: &Authority) -> Vec<u8> {
    seal(&doc.to_binary(), &authority.leaf_key)
}

/// An envelope with a given protected header and signature.
fn envelope(protected: &[u8], payload: &[u8], signature: &[u8]) -> Vec<u8> {
    let unprotected: BTreeMap<Value, Value> = BTreeMap::new();
    serde_cbor::to_vec(&(
        ByteBuf::from(protected),
        unprotected,
        ByteBuf::from(payload),
        ByteBuf::from(signature),
    ))
    .unwrap()
}

fn position(haystack: &[u8], needle: &[u8]) -> usize {
    haystack.windows(needle.len()).position(|window| window == needle).unwrap()
}

fn decide(bytes: &[u8], root: &[u8], time: u64) -> Option<Result<AttestationDoc, Error>> {
    AttestationDoc::try_from_bytes(bytes, root, time)
}

fn refusal(bytes: &[u8], root: &[u8], time: u64) -> Error {
    decide(bytes, root, time).unwrap().unwrap_err()
}

fn bytes_of(field: &Option<ByteBuf>) -> Option<Vec<u8>> {
    field.as_ref().map(|bytes| bytes.to_vec())
}

#[test]
fn test_valid_payload() {
    let authority = authority();
    let expected = document(&authority);
    let bytes = signed(&expected, &authority);
    let doc = <AttestationDoc as AttestationProcess>::from_bytes(&bytes, &authority.root, 1614967200)
        .unwrap();
    assert_eq!(doc.module_id, expected.module_id);
    assert_eq!(doc.digest, Digest::SHA384);
    assert_eq!(doc.timestamp, 1614967200123);
    assert_eq!(doc.pcrs.len(), 16);
    for i in 0..16 {
        assert_eq!(doc.pcrs[&i], vec![i as u8 + 0x50; 48]);
    }
    assert_eq!(doc.certificate, authority.leaf);
    assert_eq!(
        doc.cabundle,
        vec![authority.root.clone(), authority.regional.clone(), authority.zonal.clone()]
    );
    assert_eq!(doc.public_key, bytes_of(&expected.public_key));
    assert_eq!(doc.user_data, bytes_of(&expected.user_data));
    assert_eq!(doc.nonce, bytes_of(&expected.nonce));
    assert_eq!(decide(&bytes, &authority.root, 1614967200), Some(Ok(doc)));
}

#[test]
#[should_panic]
fn test_broken_root_cert() {
    let authority = authority();
    let bytes = signed(&document(&authority), &authority);
    let mut root_cert_copy = authority.root.clone();
    root_cert_copy[200] = root_cert_copy[200].wrapping_add(1);
    decide(&bytes, &root_cert_copy, 1614967200).unwrap().unwrap();
}

#[test]
#[should_panic]
fn test_expired_ee_cert() {
    let authority = authority();
    let bytes = signed(&document(&authority), &authority);
    decide(&bytes, &authority.root, 1618407754).unwrap().unwrap();
}

#[test]
#[should_panic]
fn test_notyetvalid_ee_cert() {
    let authority = authority();
    let bytes = signed(&document(&authority), &authority);
    decide(&bytes, &authority.root, 1614947200).unwrap().unwrap();
}

#[test]
#[should_panic]
fn test_broken_some_cert_in_ad() {
    let authority = authority();
    let mut bytes = signed(&document(&authority), &authority);
    let at = position(&bytes, &authority.zonal) + authority.zonal.len() - 1;
    bytes[at] = bytes[at].wrapping_add(1);
    decide(&bytes, &authority.root, 1614967200).unwrap().unwrap();
}

#[test]
#[should_panic]
fn test_broken_ad_pcrx() {
    let authority = authority();
    let mut bytes = signed(&document(&authority), &authority);
    let at = position(&bytes, &[0x53; 48]);
    bytes[at] = 0xff;
    decide(&bytes, &authority.root, 1614967200).unwrap().unwrap();
}

#[test]
#[should_panic]
fn test_broken_ad_debug_pcrx() {
    // mutate zero-filled PCR
    let authority = authority();
    let mut doc = document(&authority);
    doc.pcrs.insert(4, ByteBuf::from(vec![0; 48]));
    let mut bytes = signed(&doc, &authority);
    let at = position(&bytes, &[0; 48]);
    bytes[at] = 0xff;
    decide(&bytes, &authority.root, 1614967200).unwrap().unwrap();
}

/// Static SECP384R1/P-384 key.
fn get_ec384_test_key() -> (EcKey<Private>, EcKey<Public>) {
    let alg = EcGroup::from_curve_name(Nid::SECP384R1).unwrap();
    let x = BigNum::from_hex_str(
        "5a829f62f2f4f095c0e922719285b4b981c677912870a413137a5d7319916fa8\
            584a6036951d06ffeae99ca73ab1a2dc",
    )
    .unwrap();
    let y = BigNum::from_hex_str(
        "e1b76e08cb20d6afcea7423f8b49ec841dde6f210a6174750bf8136a31549422\
            4df153184557a6c29a1d7994804f604c",
    )
    .unwrap();
    let d = BigNum::from_hex_str(
        "55c6aa815a31741bc37f0ffddea73af2397bad640816ef22bfb689efc1b6cc68\
            2a73f7e5a657248e3abad500e46d5afc",
    )
    .unwrap();
    let ec_public = EcKey::from_public_key_affine_coordinates(&alg, &x, &y).unwrap();
    let ec_private =
        EcKey::from_private_components(&alg, &d, ec_public.public_key()).unwrap();
    (ec_private, ec_public)
}

const TEXT: &[u8] = b"It is a truth universally acknowledged, that a single man in possession of a good fortune, must be in want of a wife.";

/// The text in an envelope that is signed with the static key.
const SIGNED_TEXT: &[u8] = &[
    0x84, /* Protected: {1: -35} */
    0x44, 0xA1, 0x01, 0x38, 0x22, /* Unprotected: {4: '11'} */
    0xA1, 0x04, 0x42, 0x31, 0x31, /* payload: */
    0x58, 0x75, 0x49, 0x74, 0x20, 0x69, 0x73, 0x20, 0x61, 0x20, 0x74, 0x72, 0x75, 0x74,
    0x68, 0x20, 0x75, 0x6E, 0x69, 0x76, 0x65, 0x72, 0x73, 0x61, 0x6C, 0x6C, 0x79, 0x20,
    0x61, 0x63, 0x6B, 0x6E, 0x6F, 0x77, 0x6C, 0x65, 0x64, 0x67, 0x65, 0x64, 0x2C, 0x20,
    0x74, 0x68, 0x61, 0x74, 0x20, 0x61, 0x20, 0x73, 0x69, 0x6E, 0x67, 0x6C, 0x65, 0x20,
    0x6D, 0x61, 0x6E, 0x20, 0x69, 0x6E, 0x20, 0x70, 0x6F, 0x73, 0x73, 0x65, 0x73, 0x73,
    0x69, 0x6F, 0x6E, 0x20, 0x6F, 0x66, 0x20, 0x61, 0x20, 0x67, 0x6F, 0x6F, 0x64, 0x20,
    0x66, 0x6F, 0x72, 0x74, 0x75, 0x6E, 0x65, 0x2C, 0x20, 0x6D, 0x75, 0x73, 0x74, 0x20,
    0x62, 0x65, 0x20, 0x69, 0x6E, 0x20, 0x77, 0x61, 0x6E, 0x74, 0x20, 0x6F, 0x66, 0x20,
    0x61, 0x20, 0x77, 0x69, 0x66, 0x65, 0x2E, /* signature - length 48 x 2 */
    0x58, 0x60, /* R: */
    0xCD, 0x42, 0xD2, 0x76, 0x32, 0xD5, 0x41, 0x4E, 0x4B, 0x54, 0x5C, 0x95, 0xFD, 0xE6,
    0xE3, 0x50, 0x5B, 0x93, 0x58, 0x0F, 0x4B, 0x77, 0x31, 0xD1, 0x4A, 0x86, 0x52, 0x31,
    0x75, 0x26, 0x6C, 0xDE, 0xB2, 0x4A, 0xFF, 0x2D, 0xE3, 0x36, 0x4E, 0x9C, 0xEE, 0xE9,
    0xF9, 0xF7, 0x95, 0xA0, 0x15, 0x15, /* S: */
    0x5B, 0xC7, 0x12, 0xAA, 0x28, 0x63, 0xE2, 0xAA, 0xF6, 0x07, 0x8A, 0x81, 0x90, 0x93,
    0xFD, 0xFC, 0x70, 0x59, 0xA3, 0xF1, 0x46, 0x7F, 0x64, 0xEC, 0x7E, 0x22, 0x1F, 0xD1,
    0x63, 0xD8, 0x0B, 0x3B, 0x55, 0x26, 0x25, 0xCF, 0x37, 0x9D, 0x1C, 0xBB, 0x9E, 0x51,
    0x38, 0xCC, 0xD0, 0x7A, 0x19, 0x31,
];

#[test]
fn cose_sign1_ec384_validate() {
    let (_, ec_public) = get_ec384_test_key();
    let cose_doc = CoseSign1::from_bytes(SIGNED_TEXT).unwrap();
    let payload = cose_doc
        .get_payload::<Openssl>(Some(&PKey::try_from(ec_public).unwrap()))
        .unwrap();
    assert!(payload == TEXT);
}

#[test]
fn aws_root_cert_used_as_end_entity_cert() {
    let ee: &[u8] = &AWS_ROOT_CERT;
    let ca: &[u8] = &AWS_ROOT_CERT;
    let anchors = vec![webpki::trust_anchor_util::cert_der_as_trust_anchor(ca).unwrap()];
    let anchors = webpki::TLSServerTrustAnchors(&anchors);
    let time = webpki::Time::from_seconds_since_unix_epoch(1616094379); // 18 March 2021
    let all_sigalgs: &[&webpki::SignatureAlgorithm] = &[
        &webpki::ECDSA_P256_SHA256,
        &webpki::ECDSA_P256_SHA384,
        &webpki::ECDSA_P384_SHA256,
        &webpki::ECDSA_P384_SHA384,
        &webpki::ED25519,
    ];
    let cert = webpki::EndEntityCert::from(ee).unwrap();
    assert_eq!(
        Err(webpki::Error::CAUsedAsEndEntity),
        cert.verify_is_valid_tls_server_cert(all_sigalgs, &anchors, &[], time)
    );

    let mut doc = document(&authority());
    doc.certificate = ByteBuf::from(ee);
    doc.cabundle = vec![ByteBuf::from(ca)];
    let bytes = envelope(&[0xa1, 0x01, 0x38, 0x22], &doc.to_binary(), &[1; 96]);
    assert_eq!(refusal(&bytes, ca, 1616094379), Error::Chain("CAUsedAsEndEntity".to_string()));
}

#[test]
fn aws_root_is_a_p384_certificate() {
    let root = openssl::x509::X509::from_der(&AWS_ROOT_CERT).unwrap();
    let key = root.public_key().unwrap();
    assert!(root.verify(&key).unwrap());
    assert_eq!(key.ec_key().unwrap().group().curve_name(), Some(Nid::SECP384R1));
    let fingerprint = root.digest(MessageDigest::sha256()).unwrap();
    assert_eq!(fingerprint[..4], [0x64, 0x1a, 0x03, 0x21]);
    assert_eq!(fingerprint[28..], [0x8f, 0x79, 0xbb, 0x5b]);
}

#[test]
fn tagged_envelope_is_opened() {
    let authority = authority();
    let payload = document(&authority).to_binary();
    let cose = CoseSign1::new::<Openssl>(&payload, &HeaderMap::new(), &authority.leaf_key).unwrap();
    let bytes = cose.as_bytes(true).unwrap();
    assert!(decide(&bytes, &authority.root, NOW).unwrap().is_ok());
}

#[test]
fn unreadable_envelope_is_refused_with_its_text() {
    let authority = authority();
    for bytes in [vec![], vec![0x00], vec![0x84, 0x40], b"not an envelope".to_vec()] {
        let text = CoseSign1::from_bytes(&bytes).unwrap_err().to_string();
        assert_eq!(refusal(&bytes, &authority.root, NOW), Error::Envelope(text));
    }
    assert_eq!(
        refusal(&[], &authority.root, NOW).message().unwrap(),
        "Serialization error: EOF while parsing a value"
    );
}

#[test]
fn unreadable_payload_is_refused_with_its_text() {
    let authority = authority();
    let bytes = seal(b"not a document", &authority.leaf_key);
    let text = format!("{:?}", api::AttestationDoc::from_binary(b"not a document").unwrap_err());
    assert_eq!(refusal(&bytes, &authority.root, NOW), Error::Document(text));
    assert!(matches!(refusal(SIGNED_TEXT, &authority.root, NOW), Error::Document(_)));
}

#[test]
fn contents_are_held_against_the_rules() {
    let authority = authority();
    let refused = |doc: api::AttestationDoc| refusal(&signed(&doc, &authority), &authority.root, NOW);

    let mut doc = document(&authority);
    doc.module_id = String::new();
    assert_eq!(refused(doc), Error::EmptyModuleId);

    let mut doc = document(&authority);
    doc.digest = api::Digest::SHA256;
    assert_eq!(refused(doc), Error::UnknownDigest);

    let mut doc = document(&authority);
    doc.digest = api::Digest::SHA512;
    assert_eq!(refused(doc), Error::UnknownDigest);

    let mut doc = document(&authority);
    doc.pcrs.clear();
    assert_eq!(refused(doc), Error::PcrCount);

    let mut doc = document(&authority);
    doc.pcrs.remove(&5);
    assert_eq!(refused(doc), Error::PcrMissing(5));

    let mut doc = document(&authority);
    doc.pcrs.insert(7, ByteBuf::from(vec![1; 20]));
    assert_eq!(refused(doc), Error::PcrLength(7));
}

#[test]
fn contents_are_refused_whatever_root_and_time() {
    let authority = authority();
    let mut doc = document(&authority);
    doc.module_id = String::new();
    doc.cabundle.clear();
    let bytes = signed(&doc, &authority);
    assert_eq!(refusal(&bytes, &authority.root, NOW), Error::EmptyModuleId);
    assert_eq!(refusal(&bytes, b"no root", 0), Error::EmptyModuleId);
}

#[test]
fn broken_leaf_is_refused() {
    let authority = authority();
    let mut doc = document(&authority);
    doc.certificate = ByteBuf::from(b"no certificate".to_vec());
    assert_eq!(
        refusal(&signed(&doc, &authority), &authority.root, NOW),
        Error::EndEntity("BadDER".to_string())
    );
}

#[test]
fn bytes_behind_the_leaf_are_refused() {
    let authority = authority();
    let mut doc = document(&authority);
    doc.certificate.push(0);
    assert_eq!(
        refusal(&signed(&doc, &authority), &authority.root, NOW),
        Error::EndEntity("BadDER".to_string())
    );
}

#[test]
fn time_is_held_against_the_leaf() {
    let authority = authority();
    let bytes = signed(&document(&authority), &authority);
    let chain = |text: &str| Error::Chain(text.to_string());
    assert_eq!(refusal(&bytes, &authority.root, 1614947200), chain("CertNotValidYet"));
    assert_eq!(refusal(&bytes, &authority.root, LEAF_NOT_BEFORE as u64 - 1), chain("CertNotValidYet"));
    assert!(decide(&bytes, &authority.root, LEAF_NOT_BEFORE as u64).unwrap().is_ok());
    assert!(decide(&bytes, &authority.root, LEAF_NOT_AFTER as u64).unwrap().is_ok());
    assert_eq!(refusal(&bytes, &authority.root, LEAF_NOT_AFTER as u64 + 1), chain("CertExpired"));
    assert_eq!(refusal(&bytes, &authority.root, 1618407754), chain("CertExpired"));
}

#[test]
fn times_with_the_same_chain_decide_alike() {
    let authority = authority();
    let bytes = signed(&document(&authority), &authority);
    assert_eq!(decide(&bytes, &authority.root, NOW), decide(&bytes, &authority.root, NOW + 60));
}

#[test]
fn other_root_is_refused() {
    let authority = authority();
    let stranger = authority_with_leaf_on(Nid::SECP384R1);
    let bytes = signed(&document(&authority), &authority);
    let unknown = Error::Chain("UnknownIssuer".to_string());
    assert_eq!(refusal(&bytes, &stranger.root, NOW), unknown);
    assert_eq!(refusal(&bytes, &AWS_ROOT_CERT, NOW), unknown);
}

#[test]
fn missing_intermediate_is_refused() {
    let authority = authority();
    let mut doc = document(&authority);
    doc.cabundle.remove(1);
    assert_eq!(
        refusal(&signed(&doc, &authority), &authority.root, NOW),
        Error::Chain("UnknownIssuer".to_string())
    );
}

#[test]
fn broken_intermediate_is_refused() {
    let authority = authority();
    let mut doc = document(&authority);
    let last = doc.cabundle[2].len() - 1;
    doc.cabundle[2][last] = doc.cabundle[2][last].wrapping_add(1);
    assert_eq!(
        refusal(&signed(&doc, &authority), &authority.root, NOW),
        Error::Chain("UnknownIssuer".to_string())
    );
}

#[test]
fn claimed_root_has_no_part() {
    let authority = authority();
    let mut doc = document(&authority);
    doc.cabundle[0] = ByteBuf::from(b"anything at all".to_vec());
    assert!(decide(&signed(&doc, &authority), &authority.root, NOW).unwrap().is_ok());

    // An intermediate certificate in the place of the claimed root is not used.
    let mut doc = document(&authority);
    doc.cabundle.remove(0);
    assert_eq!(
        refusal(&signed(&doc, &authority), &authority.root, NOW),
        Error::Chain("UnknownIssuer".to_string())
    );
}

#[test]
fn changed_register_does_not_match_the_signature() {
    let authority = authority();
    let mut bytes = signed(&document(&authority), &authority);
    let at = position(&bytes, &[0x53; 48]);
    bytes[at] = 0xff;
    assert_eq!(refusal(&bytes, &authority.root, NOW), Error::SignatureMismatch);
}

#[test]
fn key_of_another_leaf_does_not_match() {
    let authority = authority();
    let bytes = seal(&document(&authority).to_binary(), &key_on(Nid::SECP384R1));
    assert_eq!(refusal(&bytes, &authority.root, NOW), Error::SignatureMismatch);
}

#[test]
fn other_algorithm_does_not_match() {
    let authority = authority();
    let payload = document(&authority).to_binary();
    // {1: -7}, ECDSA with SHA-256: refused though the signature is too short to be split.
    let bytes = envelope(&[0xa1, 0x01, 0x26], &payload, &[1; 3]);
    assert_eq!(refusal(&bytes, &authority.root, NOW), Error::SignatureMismatch);
}

#[test]
fn envelope_without_algorithm_cannot_be_tried() {
    let authority = authority();
    let payload = document(&authority).to_binary();
    // {4: 0}
    let bytes = envelope(&[0xa1, 0x04, 0x00], &payload, &[1; 96]);
    assert_eq!(
        refusal(&bytes, &authority.root, NOW),
        Error::Signature(
            "Specification error: Protected Header does not contain a valid Signature Algorithm specification"
                .to_string()
        )
    );
    // {1: "x"}
    let bytes = envelope(&[0xa1, 0x01, 0x61, 0x78], &payload, &[1; 96]);
    assert_eq!(
        refusal(&bytes, &authority.root, NOW),
        Error::Signature(
            "Specification error: Protected Header contains invalid Signature Algorithm specification"
                .to_string()
        )
    );
}

#[test]
fn algorithm_is_found_beside_other_parameters() {
    let authority = authority();
    let payload = document(&authority).to_binary();
    // {-1: 0, -18446744073709551616: 0, "x": 0} without and with {1: -7}
    let others: [u8; 14] = [0x20, 0x00, 0x3b, 255, 255, 255, 255, 255, 255, 255, 255, 0x00, 0x61, 0x78];
    let bytes = envelope(&[&[0xa3][..], &others, &[0x00]].concat(), &payload, &[1; 96]);
    assert!(matches!(refusal(&bytes, &authority.root, NOW), Error::Signature(_)));
    let bytes = envelope(&[&[0xa4][..], &others, &[0x00, 0x01, 0x26]].concat(), &payload, &[1; 96]);
    assert_eq!(refusal(&bytes, &authority.root, NOW), Error::SignatureMismatch);
    // with {1: -35}: the signature is split
    let protected = [&[0xa4][..], &others, &[0x00, 0x01, 0x38, 0x22]].concat();
    assert_eq!(decide(&envelope(&protected, &payload, &[1; 47]), &authority.root, NOW), None);
    let bytes = envelope(&protected, &payload, &[1; 96]);
    assert_eq!(refusal(&bytes, &authority.root, NOW), Error::SignatureMismatch);
}

#[test]
fn no_decision_without_bundle() {
    let authority = authority();
    let mut doc = document(&authority);
    doc.cabundle.clear();
    assert_eq!(decide(&signed(&doc, &authority), &authority.root, NOW), None);
}

#[test]
fn no_decision_without_root() {
    let authority = authority();
    let bytes = signed(&document(&authority), &authority);
    assert_eq!(decide(&bytes, b"no certificate", NOW), None);
    assert_eq!(decide(&bytes, &authority.root[1..], NOW), None);
}

#[test]
fn no_decision_with_a_key_on_another_curve() {
    let authority = authority_with_leaf_on(Nid::X9_62_PRIME256V1);
    let bytes = signed(&document(&authority), &authority);
    assert_eq!(decide(&bytes, &authority.root, NOW), None);
}

#[test]
fn chain_is_refused_before_the_key_is_read() {
    let authority = authority_with_leaf_on(Nid::X9_62_PRIME256V1);
    let bytes = signed(&document(&authority), &authority);
    assert_eq!(
        refusal(&bytes, &AWS_ROOT_CERT, NOW),
        Error::Chain("UnknownIssuer".to_string())
    );
    assert_eq!(
        refusal(&bytes, &authority.root, LEAF_NOT_AFTER as u64 + 1),
        Error::Chain("CertExpired".to_string())
    );
}

#[test]
fn no_decision_with_a_short_signature() {
    let authority = authority();
    let payload = document(&authority).to_binary();
    let es384 = [0xa1, 0x01, 0x38, 0x22];
    let bytes = envelope(&es384, &payload, &[1; 47]);
    assert_eq!(decide(&bytes, &authority.root, NOW), None);
    let bytes = envelope(&es384, &payload, &[1; 48]);
    assert_eq!(refusal(&bytes, &authority.root, NOW), Error::SignatureMismatch);
    let bytes = envelope(&es384, &payload, &[1; 96]);
    assert_eq!(refusal(&bytes, &authority.root, NOW), Error::SignatureMismatch);
}

fn tlv(tag: u8, content: &[u8]) -> Vec<u8> {
    let mut out = vec![tag];
    if content.len() < 0x80 {
        out.push(content.len() as u8);
    } else if content.len() < 0x100 {
        out.extend_from_slice(&[0x81, content.len() as u8]);
    } else {
        out.extend_from_slice(&[0x82, (content.len() >> 8) as u8, content.len() as u8]);
    }
    out.extend_from_slice(content);
    out
}

/// A leaf that `zonal` signed, with the given field for the public key.
fn leaf_with_key(authority: &Authority, public_key: &[u8]) -> Vec<u8> {
    let ecdsa_sha384 =
        tlv(0x30, &[0x06, 0x08, 0x2a, 0x86, 0x48, 0xce, 0x3d, 0x04, 0x03, 0x03]);
    let validity = tlv(
        0x30,
        &[tlv(0x17, b"210305170149Z"), tlv(0x17, b"210305200149Z")].concat(),
    );
    let constraints = tlv(
        0x30,
        &[tlv(0x06, &[0x55, 0x1d, 0x13]), tlv(0x04, &tlv(0x30, &[]))].concat(),
    );
    let tbs = tlv(
        0x30,
        &[
            tlv(0xa0, &[0x02, 0x01, 0x02]),
            tlv(0x02, &[0x05]),
            ecdsa_sha384.clone(),
            name("zonal").to_der().unwrap(),
            validity,
            name("leaf").to_der().unwrap(),
            public_key.to_vec(),
            tlv(0xa3, &tlv(0x30, &constraints)),
        ]
        .concat(),
    );
    let mut signer = Signer::new(MessageDigest::sha384(), &authority.zonal_key).unwrap();
    let mut signature = vec![0];
    signature.extend(signer.sign_oneshot_to_vec(&tbs).unwrap());
    tlv(0x30, &[tbs, ecdsa_sha384, tlv(0x03, &signature)].concat())
}

/// The field for a P-384 public key with the given bits.
fn p384_key(bits: &[u8]) -> Vec<u8> {
    let algorithm = tlv(
        0x30,
        &[
            tlv(0x06, &[0x2a, 0x86, 0x48, 0xce, 0x3d, 0x02, 0x01]),
            tlv(0x06, &[0x2b, 0x81, 0x04, 0x00, 0x22]),
        ]
        .concat(),
    );
    tlv(0x30, &[algorithm, tlv(0x03, &[&[0], bits].concat())].concat())
}

fn point(authority: &Authority, form: PointConversionForm) -> Vec<u8> {
    let key = authority.leaf_key.ec_key().unwrap();
    let mut ctx = BigNumContext::new().unwrap();
    key.public_key().to_bytes(key.group(), form, &mut ctx).unwrap()
}

#[test]
fn leaf_that_is_no_x509_certificate_is_refused() {
    let authority = authority();
    let mut doc = document(&authority);
    // The field for the public key is empty.
    let leaf = leaf_with_key(&authority, &[0x30, 0x00]);
    doc.certificate = ByteBuf::from(leaf.clone());
    let text = x509_parser::parse_x509_certificate(&leaf).unwrap_err().to_string();
    assert_eq!(
        refusal(&signed(&doc, &authority), &authority.root, NOW),
        Error::Certificate(text)
    );
}

#[test]
fn key_may_be_compressed() {
    let authority = authority();
    for form in [PointConversionForm::UNCOMPRESSED, PointConversionForm::COMPRESSED] {
        let bits = point(&authority, form);
        let mut doc = document(&authority);
        doc.certificate = ByteBuf::from(leaf_with_key(&authority, &p384_key(&bits)));
        assert!(decide(&signed(&doc, &authority), &authority.root, NOW).unwrap().is_ok());
    }
}

#[test]
fn point_at_infinity_signs_nothing() {
    let authority = authority();
    let mut doc = document(&authority);
    doc.certificate = ByteBuf::from(leaf_with_key(&authority, &p384_key(&[0])));
    assert_eq!(
        refusal(&signed(&doc, &authority), &authority.root, NOW),
        Error::SignatureMismatch
    );
}

/// For the digest z and the private key d, r = -z/d and s = 1 lead to the point at infinity, which
/// has no coordinates to compare with r.
#[test]
fn degenerate_signature_cannot_be_tried() {
    let authority = authority();
    let payload = document(&authority).to_binary();
    let es384 = [0xa1, 0x01, 0x38, 0x22];
    let signed = serde_cbor::to_vec(&(
        "Signature1",
        ByteBuf::from(es384.to_vec()),
        ByteBuf::new(),
        ByteBuf::from(payload.clone()),
    ))
    .unwrap();
    let digest = openssl::hash::hash(MessageDigest::sha384(), &signed).unwrap();
    let z = BigNum::from_slice(&digest).unwrap();
    let key = authority.leaf_key.ec_key().unwrap();
    let mut ctx = BigNumContext::new().unwrap();
    let mut order = BigNum::new().unwrap();
    key.group().order(&mut order, &mut ctx).unwrap();
    let mut inverse = BigNum::new().unwrap();
    inverse.mod_inverse(key.private_key(), &order, &mut ctx).unwrap();
    let mut quotient = BigNum::new().unwrap();
    quotient.mod_mul(&z, &inverse, &order, &mut ctx).unwrap();
    let mut signature = (&order - &quotient).to_vec_padded(48).unwrap();
    signature.extend_from_slice(&BigNum::from_u32(1).unwrap().to_vec_padded(48).unwrap());
    match refusal(&envelope(&es384, &payload, &signature), &authority.root, NOW) {
        Error::Signature(text) => assert!(text.starts_with("Signature error: "), "{text}"),
        error => panic!("{error:?}"),
    }
}

#[test]
fn no_decision_with_a_key_off_the_curve() {
    let authority = authority();
    let mut doc = document(&authority);
    let mut bits = point(&authority, PointConversionForm::UNCOMPRESSED);
    bits[96] ^= 1;
    doc.certificate = ByteBuf::from(leaf_with_key(&authority, &p384_key(&bits)));
    assert_eq!(decide(&signed(&doc, &authority), &authority.root, NOW), None);
    doc.certificate = ByteBuf::from(leaf_with_key(&authority, &p384_key(&[])));
    assert_eq!(decide(&signed(&doc, &authority), &authority.root, NOW), None);
}
