//! Error taxonomy of the host-side commands.  Every failure of the exchange
//! or of command policy is recovered into one of these variants and rendered
//! as a single human-readable line at the command boundary.

use vstd::prelude::*;
use vstd::string::*;

verus! {

/// Everything that can go wrong between issuing a command and reporting its
/// outcome.
#[derive(Debug)]
pub enum SgxError {
    /// A frame or payload did not parse into a known variant.
    DecodeError,
    /// The peer task ended before completing the round trip.
    ChannelClosed,
    /// Overwrite protection: the target key file already exists.
    KeyAlreadyExists,
    /// The enclave answered with an explicit error message.
    EnclaveReportedError(String),
    /// The enclave answered with a variant that does not fit the request.
    ProtocolViolation,
    /// The underlying persistence service failed.
    StorageError,
}

impl SgxError {
    /// Human-readable rendering of the failure, for the command's report.
    pub fn message(&self) -> (s: String)
        ensures
            self is DecodeError ==> s@ == "malformed wire data"@,
            self is ChannelClosed ==> s@ == "channel closed before the exchange completed"@,
            self is KeyAlreadyExists ==> s@ == "secret key path already exist"@,
            self matches SgxError::EnclaveReportedError(m) ==> s@ == "response from sgx enclave with error: "@
                + m@,
            self is ProtocolViolation ==> s@ == "response error"@,
            self is StorageError ==> s@ == "failed to store the sealed key"@,
    {
        match self {
            SgxError::DecodeError => String::from_str("malformed wire data"),
            SgxError::ChannelClosed => String::from_str(
                "channel closed before the exchange completed",
            ),
            SgxError::KeyAlreadyExists => String::from_str("secret key path already exist"),
            SgxError::EnclaveReportedError(m) => String::from_str(
                "response from sgx enclave with error: ",
            ).concat(m.as_str()),
            SgxError::ProtocolViolation => String::from_str("response error"),
            SgxError::StorageError => String::from_str("failed to store the sealed key"),
        }
    }
}

} // verus!
