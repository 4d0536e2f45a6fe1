//! Why an attestation document is refused.
use vstd::prelude::*;
use vstd::string::*;

verus! {

/// Why an attestation document is refused, with the text that describes the refusal where another
/// library found the fault.
#[derive(Debug, Clone, PartialEq, Eq)]
pub enum Error {
    /// The bytes are no COSE Sign1 envelope.
    Envelope(String),
    /// The payload of the envelope is no attestation document.
    Document(String),
    /// The document names no module.
    EmptyModuleId,
    /// The registers were not computed with SHA-384.
    UnknownDigest,
    /// The document holds no register at all, or more than 31 of them.
    PcrCount,
    /// The register at this index is absent, though one with a larger index is present.
    PcrMissing(usize),
    /// The register at this index holds neither 32, 48 nor 64 bytes.
    PcrLength(usize),
    /// The certificate in the document is no end-entity certificate.
    EndEntity(String),
    /// No trusted chain leads from the certificate to the root at the time given.
    Chain(String),
    /// The certificate in the document is no X.509 certificate.
    Certificate(String),
    /// Bytes follow the certificate.
    TrailingBytes,
    /// The certificate is not of version 3.
    CertificateVersion,
    /// The signature of the envelope could not be tried.
    Signature(String),
    /// The signature of the envelope is not that of the key in the certificate.
    SignatureMismatch,
}

/// An [`Error`] as a mathematical value, without the text of [`Error::Signature`]: where OpenSSL
/// words it, it differs from one build to another. See
/// [`is_signature_text`](crate::envelope::is_signature_text) for what is fixed of it.
pub enum Refusal {
    Envelope(Seq<char>),
    Document(Seq<char>),
    EmptyModuleId,
    UnknownDigest,
    PcrCount,
    PcrMissing(usize),
    PcrLength(usize),
    EndEntity(Seq<char>),
    Chain(Seq<char>),
    Certificate(Seq<char>),
    TrailingBytes,
    CertificateVersion,
    Signature,
    SignatureMismatch,
}

impl View for Error {
    type V = Refusal;

    open spec fn view(&self) -> Refusal {
        match *self {
            Error::Envelope(text) => Refusal::Envelope(text@),
            Error::Document(text) => Refusal::Document(text@),
            Error::EmptyModuleId => Refusal::EmptyModuleId,
            Error::UnknownDigest => Refusal::UnknownDigest,
            Error::PcrCount => Refusal::PcrCount,
            Error::PcrMissing(i) => Refusal::PcrMissing(i),
            Error::PcrLength(i) => Refusal::PcrLength(i),
            Error::EndEntity(text) => Refusal::EndEntity(text@),
            Error::Chain(text) => Refusal::Chain(text@),
            Error::Certificate(text) => Refusal::Certificate(text@),
            Error::TrailingBytes => Refusal::TrailingBytes,
            Error::CertificateVersion => Refusal::CertificateVersion,
            Error::Signature(_) => Refusal::Signature,
            Error::SignatureMismatch => Refusal::SignatureMismatch,
        }
    }
}

/// The character of the decimal digit `d`.
pub open spec fn digit_char(d: nat) -> char {
    ('0' as u32 + d) as char
}

/// The decimal digits of `n`, without leading zeros.
pub open spec fn decimal(n: nat) -> Seq<char>
    decreases n,
{
    if n < 10 {
        seq![digit_char(n)]
    } else {
        decimal(n / 10).push(digit_char(n % 10))
    }
}

fn digit_str(d: usize) -> (r: &'static str)
    requires
        d < 10,
    ensures
        r@ == seq![digit_char(d as nat)],
{
    proof {
        reveal_strlit("0");
        reveal_strlit("1");
        reveal_strlit("2");
        reveal_strlit("3");
        reveal_strlit("4");
        reveal_strlit("5");
        reveal_strlit("6");
        reveal_strlit("7");
        reveal_strlit("8");
        reveal_strlit("9");
    }
    match d {
        0 => "0",
        1 => "1",
        2 => "2",
        3 => "3",
        4 => "4",
        5 => "5",
        6 => "6",
        7 => "7",
        8 => "8",
        _ => "9",
    }
}

fn decimal_string(n: usize) -> (r: String)
    ensures
        r@ == decimal(n as nat),
    decreases n,
{
    if n < 10 {
        String::from_str(digit_str(n))
    } else {
        let mut text = decimal_string(n / 10);
        text.append(digit_str(n % 10));
        assert(text@ =~= decimal(n as nat));
        text
    }
}

/// `PCR`, then the register's index, then `rest`.
fn pcr_message(index: usize, rest: &str) -> (r: String)
    ensures
        r@ == "PCR"@ + decimal(index as nat) + rest@,
{
    let mut text = String::from_str("PCR");
    text.append(decimal_string(index).as_str());
    text.append(rest);
    text
}

impl Error {
    /// The sentence that [`Error::message`] returns.
    pub open spec fn text(&self) -> Option<Seq<char>> {
        match *self {
            Error::Envelope(text) => Some(text@),
            Error::Document(text) => Some(text@),
            Error::EmptyModuleId => Some("module_id is empty"@),
            Error::UnknownDigest => Some("digest signature is unknown"@),
            Error::PcrCount => Some("wrong number of PCRs in the map"@),
            Error::PcrMissing(i) => Some("PCR"@ + decimal(i as nat) + " is missing"@),
            Error::PcrLength(i) => Some(
                "PCR"@ + decimal(i as nat) + " len is other than 32/48/64 bytes"@,
            ),
            Error::EndEntity(text) => Some(text@),
            Error::Chain(text) => Some(text@),
            Error::Certificate(text) => Some(text@),
            Error::TrailingBytes => Some("rem is not empty"@),
            Error::CertificateVersion => Some("wrong cert version"@),
            Error::Signature(text) => Some(text@),
            Error::SignatureMismatch => None,
        }
    }

    /// The refusal as a sentence for people, or `None` for [`Error::SignatureMismatch`], which
    /// carries no sentence of its own: it is left to the caller to word it as a condition that
    /// failed.
    pub fn message(&self) -> (r: Option<String>)
        ensures
            self.text() == (match r {
                Some(text) => Some(text@),
                None => None,
            }),
    {
        match self {
            Error::Envelope(text) => Some(text.clone()),
            Error::Document(text) => Some(text.clone()),
            Error::EmptyModuleId => Some(String::from_str("module_id is empty")),
            Error::UnknownDigest => Some(String::from_str("digest signature is unknown")),
            Error::PcrCount => Some(String::from_str("wrong number of PCRs in the map")),
            Error::PcrMissing(i) => Some(pcr_message(*i, " is missing")),
            Error::PcrLength(i) => Some(pcr_message(*i, " len is other than 32/48/64 bytes")),
            Error::EndEntity(text) => Some(text.clone()),
            Error::Chain(text) => Some(text.clone()),
            Error::Certificate(text) => Some(text.clone()),
            Error::TrailingBytes => Some(String::from_str("rem is not empty")),
            Error::CertificateVersion => Some(String::from_str("wrong cert version")),
            Error::Signature(text) => Some(text.clone()),
            Error::SignatureMismatch => None,
        }
    }
}

} // verus!
