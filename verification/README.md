# nitro_attestation

Validates AWS Nitro Enclaves attestation documents: the COSE Sign1 envelope, the contents of the
document in it, the chain of certificates from the document's certificate to a trusted root at a
given time, and the envelope's signature by the key of that certificate. The root that the document
itself claims has no part in the decision.

- `src/` is the library, verified with Verus.
  - `attestation` ties the steps together: `AttestationProcess::from_bytes`, and
    `AttestationDoc::try_from_bytes`, which takes any arguments.
  - `document` holds the document and the rules on its contents.
  - `envelope`, `chain` and `certificate` hold the calls into the COSE, OpenSSL, webpki and X.509
    libraries, each behind a contract that says what is claimed of it.
  - `laws` states and proves what holds of validation as a whole.
  - `error` says why a document is refused, `root` holds the AWS root certificate.
- `app/` offers the same validation on the document type of `aws-nitro-enclaves-nsm-api`.
- `tests/` runs the library on documents that are signed by certificates made for each test.
