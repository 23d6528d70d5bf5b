//! Error taxonomy of the library.
//!
//! Two enums mirror the two layers: [`Error`] is returned by the DKG session
//! (construction, dealing, message verification and application), while
//! [`ThresholdEncryptionError`] is returned by the encryption, decryption
//! share and combiner layer.

use vstd::prelude::*;

verus! {

/// Errors of the DKG session layer.
///
/// Every operation of the session either succeeds or reports one of these;
/// nothing is recovered internally.  All of them are recoverable at the
/// session level except `InvalidParameters`, which makes construction fail.
#[derive(Clone, PartialEq, Eq, Debug)]
pub enum Error {
    /// The share count is not a power of two, the threshold is out of
    /// range, or the instance owner is missing from the validator set.
    InvalidParameters,
    /// A message arrived from an address outside the validator set.
    UnknownSender,
    /// A dealing arrived from a validator that already dealt.
    DuplicateDealer,
    /// A sharing transcript failed public verification.
    InvalidTranscript,
    /// An aggregation carries fewer verified transcripts than the
    /// reconstruction threshold.
    InsufficientAggregation,
    /// An aggregation declares a joint key other than the locally derived one.
    WrongFinalKey,
    /// The operation is not permitted in the current session state.
    StateGuard,
}

impl Error {
    /// The session-level display string.  The session reports all of its
    /// failures uniformly; the variant carries the precise cause.
    pub fn message(&self) -> (r: String)
        ensures
            r@ == "Something went wrong"@,
    {
        "Something went wrong".to_string()
    }
}

/// Errors of the threshold encryption layer.
#[derive(Clone, PartialEq, Eq, Debug)]
pub enum ThresholdEncryptionError {
    /// The pairing check for ciphertext well-formedness failed.
    CiphertextVerificationFailed,
    /// A decryption share failed its post-hoc pairing check.
    DecryptionShareVerificationFailed,
    /// The hash-to-curve primitive failed.
    HashToCurveError,
    /// The authenticated decryption of the payload failed.
    PlaintextVerificationFailed,
}

impl ThresholdEncryptionError {
    /// The display string of this error.
    pub fn message(&self) -> (r: String)
        ensures
            self is CiphertextVerificationFailed ==> r@ == "ciphertext verification failed"@,
            self is DecryptionShareVerificationFailed ==> r@ == "Decryption share verification failed"@,
            self is HashToCurveError ==> r@ == "Could not hash to curve"@,
            self is PlaintextVerificationFailed ==> r@ == "plaintext verification failed"@,
    {
        match self {
            ThresholdEncryptionError::CiphertextVerificationFailed => {
                "ciphertext verification failed".to_string()
            },
            ThresholdEncryptionError::DecryptionShareVerificationFailed => {
                "Decryption share verification failed".to_string()
            },
            ThresholdEncryptionError::HashToCurveError => "Could not hash to curve".to_string(),
            ThresholdEncryptionError::PlaintextVerificationFailed => {
                "plaintext verification failed".to_string()
            },
        }
    }
}

} // verus!
