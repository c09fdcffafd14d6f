use crate::status_code::StatusCode;
use vstd::prelude::*;

verus! {

/// Errors that can be encountered when interacting with a MIFARE DESFire
/// card. `IoBackendErrorT` is the error type of the transport in use; the
/// functions of this library that do no I/O never return
/// [Error::IoBackend].
#[derive(Debug)]
pub enum Error<IoBackendErrorT> {
    /// An error was returned by the underlying transport.
    IoBackend(IoBackendErrorT),
    /// The card replied with a bad or unexpected status code.
    BadStatusCode(StatusCode),
    /// The amount of data returned by the card was wrong or unexpected.
    BadSize,
    /// The Key ID is out of bounds.
    BadKeyId,
    /// The reply to the authentication challenge shows the card does not
    /// hold the same key.
    InvalidHandshakeResponse,
    /// The CMAC signature from the card does not match our computation.
    InvalidSignature,
    /// The CRC-32 checksum is invalid.
    InvalidCrc32,
    /// The card uses an algorithm that is not supported.
    UnsupportedAlgorithm,
    /// Unsupported file type.
    UnsupportedFileType,
    /// Bad file communication type; authentication is needed.
    BadFileCommunication,
    /// Bad combination of cryptographic algorithms.
    BadAlgorithm,
    /// Unsupported file communication.
    UnsupportedFileCommunication,
    /// Partial write of the queued data.
    IncompleteWrite,
    /// Fewer bytes were read than were asked for.
    PartialRead,
    /// The operation needs an application other than the default one.
    NoSelectedApplication,
    /// The system's random source failed; this holds the raw OS error code
    /// that the source reported, where it reported one.
    Getrandom(Option<i32>),
}

} // verus!
