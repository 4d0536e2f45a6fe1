//! What holds of validation as a whole.
use crate::attestation::{
    attestation_decides, attestation_outcome, document_key, read_outcome, trusted_sigalgs,
    AttestationProcess,
};
use crate::certificate::{accept_certificate, x509_certificate, Certificate};
use crate::chain::{
    accept_chain, accept_end_entity, end_entity, server_chain, trust_anchor, SignatureAlgorithm,
    ALL_SIGALGS,
};
use crate::document::{
    accept_document, content_refusal, first_pcr_fault, nsm_document, pcr_fault, AttestationDoc,
    Digest, DocumentView,
};
use crate::envelope::{
    accept_envelope, accept_signature, cose_algorithm, cose_payload, cose_protected,
    cose_signature, cose_signed_by, ec_point, signed, splits, Curve, Parameter,
};
use crate::error::{decimal, Error, Refusal};
use vstd::prelude::*;
use vstd::set_lib::lemma_subset_equality;

verus! {

/// Whether a register is present at index `i`, with 32, 48 or 64 bytes.
pub open spec fn register_is_sound(pcrs: Map<usize, Seq<u8>>, i: usize) -> bool {
    pcrs.contains_key(i) && (pcrs[i].len() == 32 || pcrs[i].len() == 48 || pcrs[i].len() == 64)
}

/// The rules on the contents of a document, taken together: it names a module, its registers were
/// computed with SHA-384, there are between 1 and 31 of them, one at each of the indices from 0
/// on, and each holds 32, 48 or 64 bytes.
pub open spec fn follows_rules(doc: DocumentView) -> bool {
    &&& doc.module_id.len() > 0
    &&& doc.digest == Digest::SHA384
    &&& 1 <= doc.pcrs.len() <= 31
    &&& forall|i: usize| i < doc.pcrs.len() ==> #[trigger] register_is_sound(doc.pcrs, i)
}

/// Whether no register at an index from `i` up to, not including, `n` is faulty.
pub open spec fn sound_between(pcrs: Map<usize, Seq<u8>>, i: usize, n: usize) -> bool {
    forall|j: usize| i <= j < n ==> #[trigger] pcr_fault(pcrs, j) is None
}

/// The fault that is found is that of the least faulty index, and none is found only where there
/// is none.
pub proof fn first_fault_is_least(pcrs: Map<usize, Seq<u8>>, i: usize, n: usize)
    ensures
        first_pcr_fault(pcrs, i, n) is None <==> sound_between(pcrs, i, n),
        first_pcr_fault(pcrs, i, n) is Some ==> exists|k: usize|
            i <= k < n && sound_between(pcrs, i, k) && #[trigger] pcr_fault(pcrs, k)
                == first_pcr_fault(pcrs, i, n),
    decreases n - i,
{
    if i < n {
        if pcr_fault(pcrs, i) is Some {
            assert(sound_between(pcrs, i, i));
        } else {
            let next = (i + 1) as usize;
            first_fault_is_least(pcrs, next, n);
            if first_pcr_fault(pcrs, next, n) is Some {
                let k = choose|k: usize|
                    next <= k < n && sound_between(pcrs, next, k) && #[trigger] pcr_fault(pcrs, k)
                        == first_pcr_fault(pcrs, next, n);
                assert forall|j: usize| i <= j < k implies #[trigger] pcr_fault(pcrs, j) is None by {
                    if j > i {
                        assert(next <= j);
                    }
                }
                assert(sound_between(pcrs, i, k));
                assert(pcr_fault(pcrs, k) == first_pcr_fault(pcrs, i, n));
            } else {
                assert forall|j: usize| i <= j < n implies #[trigger] pcr_fault(pcrs, j) is None by {
                    if j > i {
                        assert(next <= j);
                    }
                }
            }
        }
    }
}

/// A document is refused for its contents exactly where they break one of the rules.
pub proof fn contents_are_refused_iff_a_rule_is_broken(doc: DocumentView)
    ensures
        content_refusal(doc) is None <==> follows_rules(doc),
{
    if 1 <= doc.pcrs.len() <= 31 {
        let n = doc.pcrs.len() as usize;
        first_fault_is_least(doc.pcrs, 0, n);
        if follows_rules(doc) {
            assert forall|j: usize| 0 <= j < n implies #[trigger] pcr_fault(
                doc.pcrs,
                j,
            ) is None by {
                assert(register_is_sound(doc.pcrs, j));
            }
            assert(sound_between(doc.pcrs, 0, n));
        }
        if content_refusal(doc) is None {
            assert(sound_between(doc.pcrs, 0, n));
            assert forall|i: usize| i < doc.pcrs.len() implies #[trigger] register_is_sound(
                doc.pcrs,
                i,
            ) by {
                assert(pcr_fault(doc.pcrs, i) is None);
            }
        }
    }
}

/// ECDSA on P-256 and P-384, each with SHA-256 and SHA-384, and Ed25519.
pub open spec fn chain_algorithms() -> Seq<SignatureAlgorithm> {
    seq![
        SignatureAlgorithm::EcdsaP256Sha256,
        SignatureAlgorithm::EcdsaP256Sha384,
        SignatureAlgorithm::EcdsaP384Sha256,
        SignatureAlgorithm::EcdsaP384Sha384,
        SignatureAlgorithm::Ed25519,
    ]
}

/// A chain is searched for with exactly five algorithms: ECDSA on P-256 and P-384, each with
/// SHA-256 and SHA-384, and Ed25519.
pub proof fn chains_are_searched_with_five_algorithms()
    ensures
        ALL_SIGALGS@ == chain_algorithms(),
        trusted_sigalgs() == chain_algorithms(),
        forall|alg: SignatureAlgorithm| #[trigger] trusted_sigalgs().contains(alg),
        trusted_sigalgs().no_duplicates(),
{
    assert(ALL_SIGALGS@ =~= chain_algorithms());
    assert forall|alg: SignatureAlgorithm| #[trigger] trusted_sigalgs().contains(alg) by {
        let s = chain_algorithms();
        match alg {
            SignatureAlgorithm::EcdsaP256Sha256 => assert(s[0] == alg),
            SignatureAlgorithm::EcdsaP256Sha384 => assert(s[1] == alg),
            SignatureAlgorithm::EcdsaP384Sha256 => assert(s[2] == alg),
            SignatureAlgorithm::EcdsaP384Sha384 => assert(s[3] == alg),
            SignatureAlgorithm::Ed25519 => assert(s[4] == alg),
        }
    }
}

/// Validation hands out a document exactly where the envelope opens, its payload encodes the
/// document, the contents follow the rules, a chain that is valid at the time ties the certificate
/// to the root by the bundle without its first certificate, the certificate stands alone and is of
/// version 3, and the envelope is signed with its key.
pub proof fn accepted_iff_every_test_passes(
    bytes: Seq<u8>,
    root_cert: Seq<u8>,
    unix_ts_sec: u64,
    doc: DocumentView,
)
    ensures
        attestation_outcome(bytes, root_cert, unix_ts_sec) == Ok::<DocumentView, Refusal>(doc) <==> {
            &&& cose_payload(bytes) matches Ok(payload)
            &&& nsm_document(payload) == Ok::<DocumentView, Seq<char>>(doc)
            &&& follows_rules(doc)
            &&& end_entity(doc.certificate) is Ok
            &&& server_chain(
                doc.certificate,
                chain_algorithms(),
                root_cert,
                doc.cabundle.skip(1),
                unix_ts_sec,
            ) is Ok
            &&& x509_certificate(doc.certificate) matches Ok(cert)
            &&& cert.rest.len() == 0
            &&& cert.version == 2
            &&& cose_signed_by(bytes, Curve::Secp384r1, cert.public_key) == Some(true)
        },
{
    contents_are_refused_iff_a_rule_is_broken(doc);
    chains_are_searched_with_five_algorithms();
}

/// The indices below `n`.
pub open spec fn indices(n: usize) -> Set<usize> {
    Set::new(|i: usize| i < n)
}

proof fn lemma_indices(n: usize)
    ensures
        indices(n).finite(),
        indices(n).len() == n,
    decreases n,
{
    if n == 0 {
        assert(indices(n) =~= Set::empty());
    } else {
        let m = (n - 1) as usize;
        lemma_indices(m);
        assert(indices(n) =~= indices(m).insert(m));
    }
}

proof fn lemma_finite_registers(doc: AttestationDoc)
    ensures
        doc@.pcrs.dom().finite(),
{
    broadcast use vstd::std_specs::btree::group_btree_axioms;

    assert(doc@.pcrs.dom() =~= doc.pcrs@.dom());
}

/// The registers of a document whose contents follow the rules lie at the indices from 0 on,
/// without a gap and with nothing beyond.
pub proof fn registers_are_contiguous(doc: AttestationDoc, i: usize)
    requires
        content_refusal(doc@) is None,
    ensures
        doc@.pcrs.contains_key(i) <==> i < doc@.pcrs.len(),
{
    contents_are_refused_iff_a_rule_is_broken(doc@);
    lemma_finite_registers(doc);
    let n = doc@.pcrs.len() as usize;
    lemma_indices(n);
    assert(indices(n).subset_of(doc@.pcrs.dom())) by {
        assert forall|j: usize| indices(n).contains(j) implies doc@.pcrs.dom().contains(j) by {
            assert(register_is_sound(doc@.pcrs, j));
        }
    }
    lemma_subset_equality(indices(n), doc@.pcrs.dom());
    assert(indices(n).contains(i) <==> doc@.pcrs.dom().contains(i));
}

/// Where a register is reported missing, a register with a larger index is present.
pub proof fn missing_register_leaves_a_gap(doc: AttestationDoc, i: usize)
    requires
        content_refusal(doc@) == Some(Refusal::PcrMissing(i)),
    ensures
        !doc@.pcrs.contains_key(i),
        exists|k: usize| i < k && #[trigger] doc@.pcrs.contains_key(k),
{
    lemma_finite_registers(doc);
    let n = doc@.pcrs.len() as usize;
    first_fault_is_least(doc@.pcrs, 0, n);
    if forall|k: usize| i < k ==> !#[trigger] doc@.pcrs.contains_key(k) {
        lemma_indices(i);
        assert(doc@.pcrs.dom().subset_of(indices(i))) by {
            assert forall|k: usize| doc@.pcrs.dom().contains(k) implies indices(i).contains(k) by {
                assert(doc@.pcrs.contains_key(k));
            }
        }
        vstd::set_lib::lemma_len_subset(doc@.pcrs.dom(), indices(i));
        assert(false);
    }
}

/// The first certificate of the bundle, the root that the document claims, has no part in the
/// decision: with any other certificate in its place the contents and the certificate of the
/// document are judged alike.
pub proof fn claimed_root_is_ignored(
    doc: DocumentView,
    other: Seq<u8>,
    root_cert: Seq<u8>,
    unix_ts_sec: u64,
)
    requires
        doc.cabundle.len() > 0,
    ensures
        ({
            let swapped = DocumentView { cabundle: doc.cabundle.update(0, other), ..doc };
            &&& content_refusal(swapped) == content_refusal(doc)
            &&& document_key(swapped, root_cert, unix_ts_sec) == document_key(
                doc,
                root_cert,
                unix_ts_sec,
            )
        }),
{
    assert(doc.cabundle.update(0, other).skip(1) =~= doc.cabundle.skip(1));
}

/// What is refused for its envelope or its contents is refused in the same way whatever the root
/// and the time are.
pub proof fn early_refusal_ignores_root_and_time(
    bytes: Seq<u8>,
    root_1: Seq<u8>,
    time_1: u64,
    root_2: Seq<u8>,
    time_2: u64,
)
    requires
        read_outcome(bytes) is Err,
    ensures
        attestation_decides(bytes, root_1, time_1),
        attestation_outcome(bytes, root_1, time_1) == attestation_outcome(bytes, root_2, time_2),
{
}

/// The time acts on the decision through the chain of certificates alone.
pub proof fn time_acts_through_the_chain(
    bytes: Seq<u8>,
    root_cert: Seq<u8>,
    time_1: u64,
    time_2: u64,
)
    requires
        read_outcome(bytes) matches Ok(doc) ==> server_chain(
            doc.certificate,
            chain_algorithms(),
            root_cert,
            doc.cabundle.skip(1),
            time_1,
        ) == server_chain(
            doc.certificate,
            chain_algorithms(),
            root_cert,
            doc.cabundle.skip(1),
            time_2,
        ),
    ensures
        attestation_outcome(bytes, root_cert, time_1) == attestation_outcome(
            bytes,
            root_cert,
            time_2,
        ),
        attestation_decides(bytes, root_cert, time_1) == attestation_decides(
            bytes,
            root_cert,
            time_2,
        ),
{
    chains_are_searched_with_five_algorithms();
}

/// Whether the envelope opens, and its payload encodes this document.
pub open spec fn carries(bytes: Seq<u8>, doc: DocumentView) -> bool {
    &&& cose_payload(bytes) matches Ok(payload)
    &&& nsm_document(payload) == Ok::<DocumentView, Seq<char>>(doc)
}

/// The certificates of the bundle behind the first one.
pub open spec fn above(doc: DocumentView) -> Seq<Seq<u8>> {
    Seq::new((doc.cabundle.len() - 1) as nat, |i: int| doc.cabundle[i + 1])
}

/// What the search for a chain from the certificate of the document to the root gives.
pub open spec fn chain_found(doc: DocumentView, root_cert: Seq<u8>, unix_ts_sec: u64) -> Result<
    (),
    Seq<char>,
> {
    server_chain(doc.certificate, chain_algorithms(), root_cert, above(doc), unix_ts_sec)
}

/// Whether the document follows the rules up to its registers, `i` is one of the indices that they
/// should have, and every register below is sound.
pub open spec fn registers_are_sound_below(doc: DocumentView, i: usize) -> bool {
    &&& doc.module_id.len() > 0
    &&& doc.digest == Digest::SHA384
    &&& 1 <= doc.pcrs.len() <= 31
    &&& i < doc.pcrs.len()
    &&& forall|j: usize| j < i ==> #[trigger] register_is_sound(doc.pcrs, j)
}

/// Whether the document follows the rules, and a chain ties its certificate to the root.
pub open spec fn is_chained(doc: DocumentView, root_cert: Seq<u8>, unix_ts_sec: u64) -> bool {
    &&& follows_rules(doc)
    &&& end_entity(doc.certificate) is Ok
    &&& chain_found(doc, root_cert, unix_ts_sec) is Ok
}

/// Whether the key and the signature can be read: the key is a point of P-384, and a signature
/// under the number of ECDSA with SHA-384 holds a first number of 48 bytes, and a second one of no
/// more bytes than OpenSSL takes.
pub open spec fn key_and_signature_are_readable(bytes: Seq<u8>, key: Seq<u8>) -> bool {
    &&& ec_point(Curve::Secp384r1, key)
    &&& (cose_protected(bytes, 1) matches Parameter::Integer(n) && n == -35) ==> 48 <= cose_signature(bytes).len()
        <= 48 + 0x7fff_ffff
}

/// What `from_bytes` returns is a decision, and `try_from_bytes` returns one too, or `None` exactly
/// where there is none to be had; and wherever there is one, `from_bytes` can be called.
pub proof fn results_are_decisions(
    bytes: &[u8],
    root_cert: &[u8],
    unix_ts_sec: u64,
    r: Result<AttestationDoc, Error>,
    tried: Option<Result<AttestationDoc, Error>>,
)
    ensures
        call_ensures(
            <AttestationDoc as AttestationProcess>::from_bytes,
            (bytes, root_cert, unix_ts_sec),
            r,
        ) ==> <AttestationDoc as AttestationProcess>::decision(
            bytes@,
            root_cert@,
            unix_ts_sec,
            r,
        ),
        call_ensures(AttestationDoc::try_from_bytes, (bytes, root_cert, unix_ts_sec), tried) ==> {
            &&& tried is Some <==> <AttestationDoc as AttestationProcess>::decides(
                bytes@,
                root_cert@,
                unix_ts_sec,
            )
            &&& tried matches Some(decision) ==> <AttestationDoc as AttestationProcess>::decision(
                bytes@,
                root_cert@,
                unix_ts_sec,
                decision,
            )
        },
        call_requires(AttestationDoc::try_from_bytes, (bytes, root_cert, unix_ts_sec)),
        <AttestationDoc as AttestationProcess>::decides(bytes@, root_cert@, unix_ts_sec)
            ==> call_requires(
            <AttestationDoc as AttestationProcess>::from_bytes,
            (bytes, root_cert, unix_ts_sec),
        ),
{
}

/// The document that is handed out is the one that the payload of the envelope encodes, and the
/// key of its certificate, which stands alone and is of version 3, signed the envelope with ECDSA
/// and SHA-384 on P-384.
pub proof fn handed_out_document_is_signed(
    bytes: Seq<u8>,
    root_cert: Seq<u8>,
    unix_ts_sec: u64,
    doc: AttestationDoc,
)
    requires
        <AttestationDoc as AttestationProcess>::decision(bytes, root_cert, unix_ts_sec, Ok(doc)),
    ensures
        cose_payload(bytes) matches Ok(payload) && nsm_document(payload) == Ok::<
            DocumentView,
            Seq<char>,
        >(doc@),
        x509_certificate(doc.certificate@) matches Ok(cert) && cert.rest.len() == 0 && cert.version
            == 2 && cose_signed_by(bytes, Curve::Secp384r1, cert.public_key) == Some(true),
        cose_protected(bytes, 1) matches Parameter::Integer(n) && n == -35,
{
}

/// The document that is handed out has a certificate that a chain ties to the root at the time
/// asked for, over the bundle without its first certificate, which is never empty.
pub proof fn handed_out_document_is_chained(
    bytes: Seq<u8>,
    root_cert: Seq<u8>,
    unix_ts_sec: u64,
    doc: AttestationDoc,
)
    requires
        <AttestationDoc as AttestationProcess>::decision(bytes, root_cert, unix_ts_sec, Ok(doc)),
    ensures
        doc.cabundle@.len() > 0,
        end_entity(doc.certificate@) is Ok,
        server_chain(
            doc.certificate@,
            seq![
                SignatureAlgorithm::EcdsaP256Sha256,
                SignatureAlgorithm::EcdsaP256Sha384,
                SignatureAlgorithm::EcdsaP384Sha256,
                SignatureAlgorithm::EcdsaP384Sha384,
                SignatureAlgorithm::Ed25519,
            ],
            root_cert,
            Seq::new((doc.cabundle@.len() - 1) as nat, |i: int| doc.cabundle@[i + 1]@),
            unix_ts_sec,
        ) is Ok,
{
    chains_are_searched_with_five_algorithms();
    assert(Seq::new((doc.cabundle@.len() - 1) as nat, |i: int| doc.cabundle@[i + 1]@)
        =~= doc@.cabundle.skip(1));
}

/// The document that is handed out names its module and SHA-384, and holds between 1 and 31
/// registers, at the indices from 0 on and nowhere else, each of 32, 48 or 64 bytes.
pub proof fn handed_out_document_has_sound_registers(
    bytes: Seq<u8>,
    root_cert: Seq<u8>,
    unix_ts_sec: u64,
    doc: AttestationDoc,
    i: usize,
)
    requires
        <AttestationDoc as AttestationProcess>::decision(bytes, root_cert, unix_ts_sec, Ok(doc)),
    ensures
        doc.module_id@.len() > 0,
        doc.digest == Digest::SHA384,
        1 <= doc.pcrs@.len() <= 31,
        doc.pcrs@.contains_key(i) <==> i < doc.pcrs@.len(),
        i < doc.pcrs@.len() ==> doc.pcrs@[i]@.len() == 32 || doc.pcrs@[i]@.len() == 48
            || doc.pcrs@[i]@.len() == 64,
{
    contents_are_refused_iff_a_rule_is_broken(doc@);
    registers_are_contiguous(doc, i);
    assert(doc@.pcrs.dom() =~= doc.pcrs@.dom());
    if i < doc.pcrs@.len() {
        assert(register_is_sound(doc@.pcrs, i));
    }
}

/// A document that passes every test is handed out, as it was signed.
pub proof fn sound_document_is_handed_out(
    bytes: Seq<u8>,
    root_cert: Seq<u8>,
    unix_ts_sec: u64,
    doc: DocumentView,
    r: Result<AttestationDoc, Error>,
)
    requires
        carries(bytes, doc),
        follows_rules(doc),
        doc.cabundle.len() > 0,
        end_entity(doc.certificate) is Ok,
        chain_found(doc, root_cert, unix_ts_sec) is Ok,
        x509_certificate(doc.certificate) matches Ok(cert) && cert.rest.len() == 0 && cert.version
            == 2 && cose_signed_by(bytes, Curve::Secp384r1, cert.public_key) == Some(true),
        <AttestationDoc as AttestationProcess>::decision(bytes, root_cert, unix_ts_sec, r),
    ensures
        r matches Ok(handed_out) && handed_out@ == doc,
{
    chains_are_searched_with_five_algorithms();
    contents_are_refused_iff_a_rule_is_broken(doc);
    assert(above(doc) =~= doc.cabundle.skip(1));
}

/// A document is refused for the first test that it fails, in this order: the envelope opens, the
/// payload encodes a document, the document names a module and SHA-384, the number of registers is
/// between 1 and 31, each register from the first on is present and of a length that is allowed,
/// the certificate is one of an end entity, a chain ties it to the root, it is an X.509
/// certificate with nothing behind it and of version 3, and its key signed the envelope. Texts of
/// other libraries are kept.
pub proof fn refusal_names_the_first_failed_test(
    bytes: Seq<u8>,
    root_cert: Seq<u8>,
    unix_ts_sec: u64,
    error: Error,
)
    requires
        <AttestationDoc as AttestationProcess>::decides(bytes, root_cert, unix_ts_sec),
        <AttestationDoc as AttestationProcess>::decision(bytes, root_cert, unix_ts_sec, Err(error)),
    ensures
        match error {
            Error::Envelope(text) => cose_payload(bytes) == Err::<Seq<u8>, Seq<char>>(text@),
            Error::Document(text) => cose_payload(bytes) matches Ok(payload) && nsm_document(payload)
                == Err::<DocumentView, Seq<char>>(text@),
            _ => exists|doc: DocumentView| #[trigger]
                carries(bytes, doc) && match error {
                    Error::EmptyModuleId => doc.module_id.len() == 0,
                    Error::UnknownDigest => doc.module_id.len() > 0 && doc.digest != Digest::SHA384,
                    Error::PcrCount => doc.module_id.len() > 0 && doc.digest == Digest::SHA384 && !(1
                        <= doc.pcrs.len() <= 31),
                    Error::PcrMissing(i) => registers_are_sound_below(doc, i)
                        && !doc.pcrs.contains_key(i),
                    Error::PcrLength(i) => registers_are_sound_below(doc, i)
                        && doc.pcrs.contains_key(i) && !register_is_sound(doc.pcrs, i),
                    Error::EndEntity(text) => follows_rules(doc) && end_entity(doc.certificate)
                        == Err::<(), Seq<char>>(text@),
                    Error::Chain(text) => follows_rules(doc) && end_entity(doc.certificate) is Ok
                        && chain_found(doc, root_cert, unix_ts_sec) == Err::<(), Seq<char>>(text@),
                    Error::Certificate(text) => {
                        &&& is_chained(doc, root_cert, unix_ts_sec)
                        &&& x509_certificate(doc.certificate) matches Err(words)
                        &&& words == text@
                    },
                    Error::TrailingBytes => {
                        &&& is_chained(doc, root_cert, unix_ts_sec)
                        &&& x509_certificate(doc.certificate) matches Ok(cert)
                        &&& cert.rest.len() > 0
                    },
                    Error::CertificateVersion => {
                        &&& is_chained(doc, root_cert, unix_ts_sec)
                        &&& x509_certificate(doc.certificate) matches Ok(cert)
                        &&& cert.rest.len() == 0
                        &&& cert.version != 2
                    },
                    Error::Signature(text) => {
                        &&& is_chained(doc, root_cert, unix_ts_sec)
                        &&& x509_certificate(doc.certificate) matches Ok(cert)
                        &&& cert.rest.len() == 0
                        &&& cert.version == 2
                        &&& cose_signed_by(bytes, Curve::Secp384r1, cert.public_key) is None
                        &&& match cose_protected(bytes, 1) {
                            Parameter::Absent => text@
                                == "Specification error: Protected Header does not contain a valid Signature Algorithm specification"@,
                            Parameter::Other => text@
                                == "Specification error: Protected Header contains invalid Signature Algorithm specification"@,
                            Parameter::Integer(_) => "Signature error: "@.is_prefix_of(text@),
                        }
                    },
                    Error::SignatureMismatch => {
                        &&& is_chained(doc, root_cert, unix_ts_sec)
                        &&& x509_certificate(doc.certificate) matches Ok(cert)
                        &&& cert.rest.len() == 0
                        &&& cert.version == 2
                        &&& cose_signed_by(bytes, Curve::Secp384r1, cert.public_key) == Some(false)
                    },
                    _ => false,
                },
        },
{
    chains_are_searched_with_five_algorithms();
    if let Ok(payload) = cose_payload(bytes) {
        if let Ok(doc) = nsm_document(payload) {
            assert(carries(bytes, doc));
            contents_are_refused_iff_a_rule_is_broken(doc);
            first_fault_is_least(doc.pcrs, 0, doc.pcrs.len() as usize);
            lemma_refused_register(doc);
            if follows_rules(doc) {
                assert(above(doc) =~= doc.cabundle.skip(1));
            }
        }
    }
}

proof fn lemma_refused_register(doc: DocumentView)
    ensures
        content_refusal(doc) matches Some(refusal) ==> match refusal {
            Refusal::EmptyModuleId => doc.module_id.len() == 0,
            Refusal::UnknownDigest => doc.module_id.len() > 0 && doc.digest != Digest::SHA384,
            Refusal::PcrCount => doc.module_id.len() > 0 && doc.digest == Digest::SHA384 && !(1
                <= doc.pcrs.len() <= 31),
            Refusal::PcrMissing(i) => registers_are_sound_below(doc, i) && !doc.pcrs.contains_key(i),
            Refusal::PcrLength(i) => registers_are_sound_below(doc, i) && doc.pcrs.contains_key(i)
                && !register_is_sound(doc.pcrs, i),
            _ => false,
        },
{
    if doc.module_id.len() > 0 && doc.digest == Digest::SHA384 && 1 <= doc.pcrs.len() <= 31 {
        let n = doc.pcrs.len() as usize;
        first_fault_is_least(doc.pcrs, 0, n);
        if first_pcr_fault(doc.pcrs, 0, n) is Some {
            let k = choose|k: usize|
                0 <= k < n && sound_between(doc.pcrs, 0, k) && #[trigger] pcr_fault(doc.pcrs, k)
                    == first_pcr_fault(doc.pcrs, 0, n);
            assert forall|j: usize| j < k implies #[trigger] register_is_sound(doc.pcrs, j) by {
                assert(pcr_fault(doc.pcrs, j) is None);
            }
        }
    }
}

/// Validation comes to a decision on every envelope, root and time, but for these: the envelope
/// carries a document that follows the rules, and the bundle is empty, or the root is no
/// certificate, or the certificate is chained to the root, stands alone and is of version 3, and
/// its key or the signature cannot be read.
pub proof fn undecided_only_where_something_cannot_be_read(
    bytes: Seq<u8>,
    root_cert: Seq<u8>,
    unix_ts_sec: u64,
)
    ensures
        !<AttestationDoc as AttestationProcess>::decides(bytes, root_cert, unix_ts_sec) <==> exists|
            doc: DocumentView,
        | #[trigger]
            carries(bytes, doc) && follows_rules(doc) && {
                ||| doc.cabundle.len() == 0
                ||| !trust_anchor(root_cert)
                ||| {
                    &&& is_chained(doc, root_cert, unix_ts_sec)
                    &&& x509_certificate(doc.certificate) matches Ok(cert)
                    &&& cert.rest.len() == 0
                    &&& cert.version == 2
                    &&& !key_and_signature_are_readable(bytes, cert.public_key)
                }
            },
{
    chains_are_searched_with_five_algorithms();
    if let Ok(payload) = cose_payload(bytes) {
        if let Ok(doc) = nsm_document(payload) {
            assert(carries(bytes, doc));
            contents_are_refused_iff_a_rule_is_broken(doc);
            if doc.cabundle.len() > 0 {
                assert(above(doc) =~= doc.cabundle.skip(1));
            }
        }
    }
}

/// Two decisions on the same arguments hand out the same document, or refuse for the same reason.
pub proof fn decisions_agree(
    bytes: Seq<u8>,
    root_cert: Seq<u8>,
    unix_ts_sec: u64,
    r1: Result<AttestationDoc, Error>,
    r2: Result<AttestationDoc, Error>,
)
    requires
        <AttestationDoc as AttestationProcess>::decision(bytes, root_cert, unix_ts_sec, r1),
        <AttestationDoc as AttestationProcess>::decision(bytes, root_cert, unix_ts_sec, r2),
    ensures
        match (r1, r2) {
            (Ok(doc1), Ok(doc2)) => doc1@ == doc2@,
            (Err(error1), Err(error2)) => error1@ == error2@,
            _ => false,
        },
{
}

/// Whatever the root and the time, an envelope gives one document only: they decide whether it is
/// handed out, not what it holds.
pub proof fn root_and_time_do_not_change_the_document(
    bytes: Seq<u8>,
    root_1: Seq<u8>,
    time_1: u64,
    doc_1: AttestationDoc,
    root_2: Seq<u8>,
    time_2: u64,
    doc_2: AttestationDoc,
)
    requires
        <AttestationDoc as AttestationProcess>::decision(bytes, root_1, time_1, Ok(doc_1)),
        <AttestationDoc as AttestationProcess>::decision(bytes, root_2, time_2, Ok(doc_2)),
    ensures
        doc_1@ == doc_2@,
{
}

/// The mathematical value of a document holds every field of it, whole.
pub proof fn document_view_holds_every_field(doc: AttestationDoc)
    ensures
        doc@.module_id == doc.module_id@,
        doc@.digest == doc.digest,
        doc@.timestamp == doc.timestamp,
        doc@.pcrs.dom() == doc.pcrs@.dom(),
        forall|i: usize| doc.pcrs@.contains_key(i) ==> #[trigger] doc@.pcrs[i] == doc.pcrs@[i]@,
        doc@.certificate == doc.certificate@,
        doc@.cabundle.len() == doc.cabundle@.len(),
        forall|i: int|
            0 <= i < doc.cabundle@.len() ==> #[trigger] doc@.cabundle[i] == doc.cabundle@[i]@,
        match doc.public_key {
            Some(key) => doc@.public_key == Some(key@),
            None => doc@.public_key is None,
        },
        match doc.user_data {
            Some(data) => doc@.user_data == Some(data@),
            None => doc@.user_data is None,
        },
        match doc.nonce {
            Some(nonce) => doc@.nonce == Some(nonce@),
            None => doc@.nonce is None,
        },
{
    assert(doc@.pcrs.dom() =~= doc.pcrs@.dom());
}

/// The mathematical value of a certificate holds every field of it.
pub proof fn certificate_view_holds_every_field(cert: Certificate)
    ensures
        cert@.rest == cert.rest@,
        cert@.version == cert.version,
        cert@.public_key == cert.public_key@,
{
}

/// `check_contents` accepts a document exactly where it names its module and SHA-384, and holds
/// between 1 and 31 registers, one at each index from 0 on, each of 32, 48 or 64 bytes.
pub proof fn checked_contents_follow_the_rules(doc: AttestationDoc, r: Result<(), Error>)
    requires
        call_ensures(AttestationDoc::check_contents, (&doc,), r),
    ensures
        call_requires(AttestationDoc::check_contents, (&doc,)),
        r is Ok <==> {
            &&& doc.module_id@.len() > 0
            &&& doc.digest == Digest::SHA384
            &&& 1 <= doc.pcrs@.len() <= 31
            &&& forall|i: usize|
                i < doc.pcrs@.len() ==> #[trigger] doc.pcrs@.contains_key(i) && (
                doc.pcrs@[i]@.len() == 32 || doc.pcrs@[i]@.len() == 48 || doc.pcrs@[i]@.len() == 64)
        },
{
    contents_are_refused_iff_a_rule_is_broken(doc@);
    assert(doc@.pcrs.dom() =~= doc.pcrs@.dom());
    if follows_rules(doc@) {
        assert forall|i: usize| i < doc.pcrs@.len() implies #[trigger] doc.pcrs@.contains_key(i) && (
        doc.pcrs@[i]@.len() == 32 || doc.pcrs@[i]@.len() == 48 || doc.pcrs@[i]@.len() == 64) by {
            assert(register_is_sound(doc@.pcrs, i));
        }
    }
    if forall|i: usize|
        i < doc.pcrs@.len() ==> #[trigger] doc.pcrs@.contains_key(i) && (doc.pcrs@[i]@.len() == 32
            || doc.pcrs@[i]@.len() == 48 || doc.pcrs@[i]@.len() == 64) {
        assert forall|i: usize| i < doc@.pcrs.len() implies #[trigger] register_is_sound(
            doc@.pcrs,
            i,
        ) by {
            assert(doc.pcrs@.contains_key(i));
        }
    }
}

/// `check_contents` names the first rule that is broken, and of the registers the least faulty
/// one.
pub proof fn checked_contents_name_the_first_broken_rule(doc: AttestationDoc, error: Error)
    requires
        call_ensures(AttestationDoc::check_contents, (&doc,), Err(error)),
    ensures
        match error {
            Error::EmptyModuleId => doc.module_id@.len() == 0,
            Error::UnknownDigest => doc.module_id@.len() > 0 && doc.digest != Digest::SHA384,
            Error::PcrCount => doc.module_id@.len() > 0 && doc.digest == Digest::SHA384 && !(1
                <= doc.pcrs@.len() <= 31),
            Error::PcrMissing(i) => registers_are_sound_below(doc@, i) && !doc.pcrs@.contains_key(
                i,
            ),
            Error::PcrLength(i) => registers_are_sound_below(doc@, i) && doc.pcrs@.contains_key(i)
                && doc.pcrs@[i]@.len() != 32 && doc.pcrs@[i]@.len() != 48 && doc.pcrs@[i]@.len()
                != 64,
            _ => false,
        },
{
    assert(doc@.pcrs.dom() =~= doc.pcrs@.dom());
    lemma_refused_register(doc@);
}

/// `intermediates` leaves out the first certificate of the bundle, and nothing else.
pub proof fn intermediates_leave_out_the_first(doc: AttestationDoc, r: Vec<&[u8]>, i: int)
    requires
        doc.cabundle@.len() > 0,
        call_ensures(AttestationDoc::intermediates, (&doc,), r),
    ensures
        call_requires(AttestationDoc::intermediates, (&doc,)),
        r@.len() + 1 == doc.cabundle@.len(),
        0 <= i < r@.len() ==> r@[i]@ == doc.cabundle@[i + 1]@,
{
    let views = r@.map_values(|der: &[u8]| der@);
    assert(views.len() == r@.len());
    if 0 <= i < r@.len() {
        assert(views[i] == doc@.cabundle.skip(1)[i]);
    }
}

/// Of what was decoded from a payload, `accept_document` keeps the document whole, and the text of
/// the error.
pub proof fn accepted_document_is_kept_whole(
    decoded: Result<AttestationDoc, String>,
    r: Result<AttestationDoc, Error>,
)
    requires
        call_ensures(accept_document, (decoded,), r),
    ensures
        call_requires(accept_document, (decoded,)),
        match decoded {
            Err(text) => r == Err::<AttestationDoc, Error>(Error::Document(text)),
            Ok(doc) => {
                &&& r is Ok <==> follows_rules(doc@)
                &&& r matches Ok(accepted) ==> accepted == doc
                &&& r matches Err(error) ==> match error {
                    Error::EmptyModuleId => doc.module_id@.len() == 0,
                    Error::UnknownDigest => doc.module_id@.len() > 0 && doc.digest
                        != Digest::SHA384,
                    Error::PcrCount => doc.module_id@.len() > 0 && doc.digest == Digest::SHA384
                        && !(1 <= doc@.pcrs.len() <= 31),
                    Error::PcrMissing(i) => registers_are_sound_below(doc@, i)
                        && !doc@.pcrs.contains_key(i),
                    Error::PcrLength(i) => registers_are_sound_below(doc@, i)
                        && doc@.pcrs.contains_key(i) && !register_is_sound(doc@.pcrs, i),
                    _ => false,
                }
            },
        },
{
    if let Ok(doc) = decoded {
        contents_are_refused_iff_a_rule_is_broken(doc@);
        lemma_refused_register(doc@);
    }
}

/// An envelope that opened gives its payload, and a certificate or a chain that was accepted
/// nothing; what failed gives the error of its step, with its text.
pub proof fn failed_steps_keep_their_texts(
    opened: Result<Vec<u8>, String>,
    payload: Result<Vec<u8>, Error>,
    found: Result<(), String>,
    end_entity_accepted: Result<(), Error>,
    chain_accepted: Result<(), Error>,
)
    requires
        call_ensures(accept_envelope, (opened,), payload),
        call_ensures(accept_end_entity, (found,), end_entity_accepted),
        call_ensures(accept_chain, (found,), chain_accepted),
    ensures
        call_requires(accept_envelope, (opened,)),
        call_requires(accept_end_entity, (found,)),
        call_requires(accept_chain, (found,)),
        match opened {
            Ok(bytes) => payload == Ok::<Vec<u8>, Error>(bytes),
            Err(text) => payload == Err::<Vec<u8>, Error>(Error::Envelope(text)),
        },
        match found {
            Ok(()) => end_entity_accepted is Ok && chain_accepted is Ok,
            Err(text) => {
                &&& end_entity_accepted == Err::<(), Error>(Error::EndEntity(text))
                &&& chain_accepted == Err::<(), Error>(Error::Chain(text))
            },
        },
{
}

/// A key is taken out of a certificate exactly where nothing follows the certificate and it is of
/// version 3, whose field holds 2; bytes that follow are reported before the version.
pub proof fn key_is_taken_from_a_lone_version_3_certificate(
    parsed: Result<Certificate, String>,
    r: Result<Vec<u8>, Error>,
)
    requires
        call_ensures(accept_certificate, (parsed,), r),
    ensures
        call_requires(accept_certificate, (parsed,)),
        r == (match parsed {
            Err(text) => Err::<Vec<u8>, Error>(Error::Certificate(text)),
            Ok(cert) => if cert.rest@.len() > 0 {
                Err::<Vec<u8>, Error>(Error::TrailingBytes)
            } else if cert.version != 2 {
                Err::<Vec<u8>, Error>(Error::CertificateVersion)
            } else {
                Ok::<Vec<u8>, Error>(cert.public_key)
            },
        }),
{
}

/// A signature is accepted only where it was tried, and found to be that of the key.
pub proof fn only_a_matching_signature_is_accepted(
    tried: Result<bool, String>,
    r: Result<(), Error>,
)
    requires
        call_ensures(accept_signature, (tried,), r),
    ensures
        call_requires(accept_signature, (tried,)),
        r is Ok <==> tried == Ok::<bool, String>(true),
        r == Err::<(), Error>(Error::SignatureMismatch) <==> tried == Ok::<bool, String>(false),
        tried matches Err(text) ==> r == Err::<(), Error>(Error::Signature(text)),
{
}

/// The answer of a signature that was tried is kept as it is, the algorithm is the parameter under
/// the label 1, and only under the number -35 is anything asked of the length of a signature: a
/// first number of 48 bytes, and a second one of no more bytes than OpenSSL takes.
pub proof fn signatures_are_tried_as_they_stand(
    bytes: Seq<u8>,
    tried: Result<bool, String>,
    algorithm: Parameter,
    signature: Seq<u8>,
)
    ensures
        match tried {
            Ok(answer) => signed(tried) == Some(answer),
            Err(_) => signed(tried) is None,
        },
        cose_algorithm(bytes) == cose_protected(bytes, 1),
        splits(algorithm, signature) <==> ((algorithm matches Parameter::Integer(n) && n == -35)
            ==> 48 <= signature.len() <= 48 + 0x7fff_ffff),
{
}

/// Each refusal has its own sentence: a text of another library as it is, else a fixed one, with
/// the index of the register where one is at fault.
pub proof fn messages_are_worded(error: Error, r: Option<String>)
    requires
        call_ensures(Error::message, (&error,), r),
    ensures
        call_requires(Error::message, (&error,)),
        match error {
            Error::Envelope(text)
            | Error::Document(text)
            | Error::EndEntity(text)
            | Error::Chain(text)
            | Error::Certificate(text)
            | Error::Signature(text) => r matches Some(words) && words@ == text@,
            Error::EmptyModuleId => r matches Some(words) && words@ == "module_id is empty"@,
            Error::UnknownDigest => r matches Some(words) && words@
                == "digest signature is unknown"@,
            Error::PcrCount => r matches Some(words) && words@
                == "wrong number of PCRs in the map"@,
            Error::PcrMissing(i) => r matches Some(words) && words@ == "PCR"@ + decimal(i as nat)
                + " is missing"@,
            Error::PcrLength(i) => r matches Some(words) && words@ == "PCR"@ + decimal(i as nat)
                + " len is other than 32/48/64 bytes"@,
            Error::TrailingBytes => r matches Some(words) && words@ == "rem is not empty"@,
            Error::CertificateVersion => r matches Some(words) && words@ == "wrong cert version"@,
            Error::SignatureMismatch => r is None,
        },
{
}

/// The number that decimal digits stand for.
pub open spec fn digits_value(digits: Seq<char>) -> int
    decreases digits.len(),
{
    if digits.len() == 0 {
        0
    } else {
        10 * digits_value(digits.drop_last()) + (digits.last() as int - '0' as int)
    }
}

/// A number is written in decimal digits that stand for it, without leading zeros.
pub proof fn decimal_stands_for_the_number(n: nat)
    ensures
        digits_value(decimal(n)) == n,
        decimal(n).len() > 0,
        decimal(n)[0] == '0' ==> n == 0 && decimal(n).len() == 1,
        forall|i: int| 0 <= i < decimal(n).len() ==> '0' <= #[trigger] decimal(n)[i] <= '9',
    decreases n,
{
    if n < 10 {
        assert(decimal(n).drop_last() =~= Seq::empty());
        assert(digits_value(decimal(n).drop_last()) == 0);
    } else {
        decimal_stands_for_the_number(n / 10);
        assert(decimal(n).drop_last() =~= decimal(n / 10));
    }
}

} // verus!
