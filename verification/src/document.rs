//! The attestation document that a Nitro Secure Module signs, and the rules on its contents.
use crate::error::{Error, Refusal};
use aws_nitro_enclaves_nsm_api::api;
use serde_bytes::ByteBuf;
use std::collections::BTreeMap;
use vstd::prelude::*;

verus! {

broadcast use vstd::std_specs::btree::group_btree_axioms;

/// The hash function that computed the platform configuration registers.
#[derive(Debug, Clone, Copy, PartialEq, Eq, Structural)]
pub enum Digest {
    SHA256,
    SHA384,
    SHA512,
}

/// An attestation document.
#[derive(Debug, Clone, PartialEq, Eq)]
pub struct AttestationDoc {
    /// Identifier of the Nitro Secure Module that issued the document.
    pub module_id: String,
    /// The hash function behind the register values.
    pub digest: Digest,
    /// When the document was made, in milliseconds since the Unix epoch.
    pub timestamp: u64,
    /// The locked platform configuration registers, by index.
    pub pcrs: BTreeMap<usize, Vec<u8>>,
    /// The certificate whose key signed the document, DER encoded.
    pub certificate: Vec<u8>,
    /// The certificates of the authorities above `certificate`, each DER encoded, the claimed
    /// root first.
    pub cabundle: Vec<Vec<u8>>,
    /// A key with which the reader may encrypt data for the enclave.
    pub public_key: Option<Vec<u8>>,
    /// Data that the enclave asked to have signed.
    pub user_data: Option<Vec<u8>>,
    /// A nonce that the reader supplied.
    pub nonce: Option<Vec<u8>>,
}

/// An [`AttestationDoc`] as a mathematical value.
#[verifier::ext_equal]
pub struct DocumentView {
    pub module_id: Seq<char>,
    pub digest: Digest,
    pub timestamp: u64,
    pub pcrs: Map<usize, Seq<u8>>,
    pub certificate: Seq<u8>,
    pub cabundle: Seq<Seq<u8>>,
    pub public_key: Option<Seq<u8>>,
    pub user_data: Option<Seq<u8>>,
    pub nonce: Option<Seq<u8>>,
}

/// The bytes of an optional field.
pub open spec fn optional_bytes(bytes: Option<Vec<u8>>) -> Option<Seq<u8>> {
    match bytes {
        Some(bytes) => Some(bytes@),
        None => None,
    }
}

impl View for AttestationDoc {
    type V = DocumentView;

    open spec fn view(&self) -> DocumentView {
        DocumentView {
            module_id: self.module_id@,
            digest: self.digest,
            timestamp: self.timestamp,
            pcrs: self.pcrs@.map_values(|pcr: Vec<u8>| pcr@),
            certificate: self.certificate@,
            cabundle: self.cabundle@.map_values(|der: Vec<u8>| der@),
            public_key: optional_bytes(self.public_key),
            user_data: optional_bytes(self.user_data),
            nonce: optional_bytes(self.nonce),
        }
    }
}

/// The smallest number of registers that is too large.
pub const PCR_LIMIT: usize = 32;

/// Whether a register may hold this many bytes: the sizes of a SHA-256, a SHA-384 and a SHA-512
/// digest.
pub open spec fn is_pcr_length(len: nat) -> bool {
    len == 32 || len == 48 || len == 64
}

/// What is wrong with the register at index `i`, if anything.
pub open spec fn pcr_fault(pcrs: Map<usize, Seq<u8>>, i: usize) -> Option<Refusal> {
    if !pcrs.contains_key(i) {
        Some(Refusal::PcrMissing(i))
    } else if !is_pcr_length(pcrs[i].len()) {
        Some(Refusal::PcrLength(i))
    } else {
        None
    }
}

/// What is wrong with the first faulty register among those at the indices from `i` up to, not
/// including, `n`.
pub open spec fn first_pcr_fault(pcrs: Map<usize, Seq<u8>>, i: usize, n: usize) -> Option<Refusal>
    decreases n - i,
{
    if i >= n {
        None
    } else if pcr_fault(pcrs, i) is Some {
        pcr_fault(pcrs, i)
    } else {
        first_pcr_fault(pcrs, (i + 1) as usize, n)
    }
}

/// Why a document is refused for its contents, or `None` where the contents follow the rules.
pub open spec fn content_refusal(doc: DocumentView) -> Option<Refusal> {
    if doc.module_id.len() == 0 {
        Some(Refusal::EmptyModuleId)
    } else if doc.digest != Digest::SHA384 {
        Some(Refusal::UnknownDigest)
    } else if !(1 <= doc.pcrs.len() < PCR_LIMIT) {
        Some(Refusal::PcrCount)
    } else {
        first_pcr_fault(doc.pcrs, 0, doc.pcrs.len() as usize)
    }
}

/// The document that these bytes encode in CBOR, or the debug text of the error that
/// `aws_nitro_enclaves_nsm_api::api::AttestationDoc::from_binary` returns for them.
pub uninterp spec fn nsm_document(payload: Seq<u8>) -> Result<DocumentView, Seq<char>>;

/// What [`accept_document`] returns for a decoded payload.
pub open spec fn accepted_document(decoded: Result<DocumentView, Seq<char>>) -> Result<
    DocumentView,
    Refusal,
> {
    match decoded {
        Err(text) => Err(Refusal::Document(text)),
        Ok(doc) => match content_refusal(doc) {
            Some(refusal) => Err(refusal),
            None => Ok(doc),
        },
    }
}

/// Calls `aws_nitro_enclaves_nsm_api::api::AttestationDoc::from_binary`, and moves the fields of
/// its document into an [`AttestationDoc`], or the debug text of its error into a `String`.
/// Claimed of it: document and text depend on the payload alone.
#[verifier::external_body]
pub(crate) fn decode_document(payload: &[u8]) -> (r: Result<AttestationDoc, String>)
    ensures
        nsm_document(payload@) == (match r {
            Ok(doc) => Ok::<DocumentView, Seq<char>>(doc@),
            Err(text) => Err::<DocumentView, Seq<char>>(text@),
        }),
{
    match api::AttestationDoc::from_binary(payload) {
        Ok(doc) => Ok(AttestationDoc {
            module_id: doc.module_id,
            digest: match doc.digest { api::Digest::SHA256 => Digest::SHA256, api::Digest::SHA384 => Digest::SHA384, api::Digest::SHA512 => Digest::SHA512 },
            timestamp: doc.timestamp,
            pcrs: doc.pcrs.into_iter().map(|(i, pcr)| (i, pcr.into_vec())).collect(),
            certificate: doc.certificate.into_vec(),
            cabundle: doc.cabundle.into_iter().map(ByteBuf::into_vec).collect(),
            public_key: doc.public_key.map(ByteBuf::into_vec),
            user_data: doc.user_data.map(ByteBuf::into_vec),
            nonce: doc.nonce.map(ByteBuf::into_vec),
        }),
        Err(err) => Err(format!("{err:?}")),
    }
}

impl AttestationDoc {
    /// Holds the contents of the document against the rules: it names a module, its registers
    /// were computed with SHA-384, there are between 1 and 31 of them, at the indices from 0 on
    /// without a gap, and each holds 32, 48 or 64 bytes. The error is that of the first rule
    /// that is broken.
    pub fn check_contents(&self) -> (r: Result<(), Error>)
        ensures
            match r {
                Ok(()) => content_refusal(self@) is None,
                Err(error) => content_refusal(self@) == Some(error@),
            },
    {
        if self.module_id.as_str().is_empty() {
            return Err(Error::EmptyModuleId);
        }
        if self.digest != Digest::SHA384 {
            return Err(Error::UnknownDigest);
        }
        let pcrs_len: usize = self.pcrs.len();
        assert(self@.pcrs.dom() =~= self.pcrs@.dom());
        if pcrs_len < 1 || pcrs_len >= PCR_LIMIT {
            return Err(Error::PcrCount);
        }
        let mut i: usize = 0;
        while i < pcrs_len
            invariant
                i <= pcrs_len,
                first_pcr_fault(self@.pcrs, 0, pcrs_len) == first_pcr_fault(
                    self@.pcrs,
                    i,
                    pcrs_len,
                ),
                content_refusal(self@) == first_pcr_fault(self@.pcrs, 0, pcrs_len),
            decreases pcrs_len - i,
        {
            match self.pcrs.get(&i) {
                None => {
                    return Err(Error::PcrMissing(i));
                },
                Some(pcr) => {
                    let pcr_len: usize = pcr.len();
                    if pcr_len != 32 && pcr_len != 48 && pcr_len != 64 {
                        return Err(Error::PcrLength(i));
                    }
                },
            }
            i = i + 1;
        }
        Ok(())
    }

    /// The certificates of `cabundle` without the first one, the claimed root.
    pub fn intermediates(&self) -> (r: Vec<&[u8]>)
        requires
            self.cabundle@.len() > 0,
        ensures
            r@.map_values(|der: &[u8]| der@) == self@.cabundle.skip(1),
    {
        let mut r: Vec<&[u8]> = Vec::new();
        let mut i: usize = 1;
        while i < self.cabundle.len()
            invariant
                1 <= i <= self.cabundle@.len(),
                r@.len() == i - 1,
                forall|j: int| 0 <= j < r@.len() ==> (#[trigger] r@[j])@ == self.cabundle@[j + 1]@,
            decreases self.cabundle@.len() - i,
        {
            r.push(self.cabundle[i].as_slice());
            i = i + 1;
        }
        assert(r@.map_values(|der: &[u8]| der@) =~= self@.cabundle.skip(1));
        r
    }
}

/// Turns what was decoded from a payload into a document whose contents follow the rules.
pub fn accept_document(decoded: Result<AttestationDoc, String>) -> (r: Result<
    AttestationDoc,
    Error,
>)
    ensures
        match (decoded, r) {
            (Ok(doc), Ok(accepted)) => accepted == doc && content_refusal(doc@) is None,
            (Ok(doc), Err(error)) => content_refusal(doc@) == Some(error@),
            (Err(_), Ok(_)) => false,
            (Err(text), Err(error)) => error == Error::Document(text),
        },
{
    match decoded {
        Err(text) => Err(Error::Document(text)),
        Ok(doc) => match doc.check_contents() {
            Err(error) => Err(error),
            Ok(()) => Ok(doc),
        },
    }
}

} // verus!
