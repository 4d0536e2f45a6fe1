//! Validation of AWS Nitro Enclaves attestation documents.
//!
//! An attestation document is trusted if its envelope is signed by the key of its certificate, and
//! a chain of certificates, valid at the time asked for, ties that certificate to a root that the
//! caller trusts, such as [`root::AWS_ROOT_CERT`]. See [`attestation::AttestationProcess`].
pub mod attestation;
pub mod certificate;
pub mod chain;
pub mod document;
pub mod envelope;
pub mod error;
pub mod laws;
pub mod root;
