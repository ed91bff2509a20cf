//! The failure taxonomy surfaced to callers of the transfer core.

use vstd::prelude::*;

verus! {

/// Mathematical value of a [`RemoteError`].
#[verifier::ext_equal]
pub enum RemoteErrorV {
    /// The remote rejected the request for authorization reasons.
    AccessDenied,
    /// The remote reported a per-object failure; binding, aborts the batch.
    ObjectError { code: u64, message: Seq<u8> },
    /// A response object's identifier matches no requested pointer.
    NotFound,
    /// The negotiation exchange itself failed.
    Batch(Seq<u8>),
    /// A transport-level download failed.
    Download(Seq<u8>),
    /// A transport-level upload failed.
    Upload(Seq<u8>),
    /// Remote-side post-upload verification failed.
    Verify(Seq<u8>),
    /// Downloaded content's digest does not match the expected pointer.
    ChecksumMismatch,
    /// The remote indicated an action set but omitted the action needed.
    EmptyResponse,
    /// A malformed endpoint.
    UrlParse(Seq<u8>),
    /// A local I/O fault.
    Io(Seq<u8>),
    /// Passthrough for backend-specific failures not otherwise classified.
    Custom(Seq<u8>),
}

/// A failure of one `pull` or `push` call.
///
/// Object-level protocol errors and checksum mismatches abort the whole
/// batch; transient transport faults are retried before being escalated.
#[derive(Debug)]
pub enum RemoteError {
    /// The remote rejected the request for authorization reasons.
    AccessDenied,
    /// The remote reported a per-object failure; binding, aborts the batch.
    ObjectError { code: u64, message: Vec<u8> },
    /// A response object's identifier matches no requested pointer.
    NotFound,
    /// The negotiation exchange itself failed.
    Batch(Vec<u8>),
    /// A transport-level download failed.
    Download(Vec<u8>),
    /// A transport-level upload failed.
    Upload(Vec<u8>),
    /// Remote-side post-upload verification failed.
    Verify(Vec<u8>),
    /// Downloaded content's digest does not match the expected pointer.
    ChecksumMismatch,
    /// The remote indicated an action set but omitted the action needed.
    EmptyResponse,
    /// A malformed endpoint.
    UrlParse(Vec<u8>),
    /// A local I/O fault.
    Io(Vec<u8>),
    /// Passthrough for backend-specific failures not otherwise classified.
    Custom(Vec<u8>),
}

impl View for RemoteError {
    type V = RemoteErrorV;

    open spec fn view(&self) -> RemoteErrorV {
        match self {
            RemoteError::AccessDenied => RemoteErrorV::AccessDenied,
            RemoteError::ObjectError { code, message } => RemoteErrorV::ObjectError {
                code: *code,
                message: message@,
            },
            RemoteError::NotFound => RemoteErrorV::NotFound,
            RemoteError::Batch(m) => RemoteErrorV::Batch(m@),
            RemoteError::Download(m) => RemoteErrorV::Download(m@),
            RemoteError::Upload(m) => RemoteErrorV::Upload(m@),
            RemoteError::Verify(m) => RemoteErrorV::Verify(m@),
            RemoteError::ChecksumMismatch => RemoteErrorV::ChecksumMismatch,
            RemoteError::EmptyResponse => RemoteErrorV::EmptyResponse,
            RemoteError::UrlParse(m) => RemoteErrorV::UrlParse(m@),
            RemoteError::Io(m) => RemoteErrorV::Io(m@),
            RemoteError::Custom(m) => RemoteErrorV::Custom(m@),
        }
    }
}

} // verus!
