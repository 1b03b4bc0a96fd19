use vstd::prelude::*;

verus! {

/// The failure taxonomy of a generation call.
///
/// Every error propagates directly to the caller; no stage retries or
/// swallows a failure, and a failed call returns no partial results.
#[derive(Debug, Clone, Copy, PartialEq, Eq, Structural)]
pub enum GenerateError {
    /// The requested image count lies outside the per-request cap.
    InvalidArgument,
    /// Protocol version 1 was selected; the service no longer accepts it.
    UnsupportedProtocolVersion,
    /// The transport failed while sending the request or fetching an image.
    NetworkError,
    /// The response body, or a fetched image, could not be decoded.
    DecodeError,
}

/// The description that each error variant carries.
pub open spec fn error_text(e: GenerateError) -> Seq<char> {
    match e {
        GenerateError::InvalidArgument => "number of images must be between 1 and 9"@,
        GenerateError::UnsupportedProtocolVersion => "V1 is not supported anymore, use V3 instead"@,
        GenerateError::NetworkError => "network request failed"@,
        GenerateError::DecodeError => "response could not be decoded"@,
    }
}

impl GenerateError {
    /// A human-readable description of which stage failed.
    pub fn describe(&self) -> (r: &'static str)
        ensures
            r@ == error_text(*self),
    {
        match self {
            GenerateError::InvalidArgument => "number of images must be between 1 and 9",
            GenerateError::UnsupportedProtocolVersion => "V1 is not supported anymore, use V3 instead",
            GenerateError::NetworkError => "network request failed",
            GenerateError::DecodeError => "response could not be decoded",
        }
    }
}

/// The transport stages that the caller performs for the library, each
/// of which can fail.
#[derive(Debug, Clone, Copy, PartialEq, Eq, Structural)]
pub enum TransportFailure {
    /// The generation request could not be sent, or its response carried
    /// a non-success status.
    SendFailed,
    /// The response body was not a valid reference-list envelope.
    BodyUndecodable,
    /// An image byte-fetch failed, or carried a non-success status.
    FetchFailed,
}

/// The error that each transport failure surfaces as: failures of the
/// transport itself are network errors; a body that cannot be parsed is
/// a decode error.
pub open spec fn failure_error(f: TransportFailure) -> GenerateError {
    match f {
        TransportFailure::SendFailed => GenerateError::NetworkError,
        TransportFailure::BodyUndecodable => GenerateError::DecodeError,
        TransportFailure::FetchFailed => GenerateError::NetworkError,
    }
}

impl TransportFailure {
    /// The error that this failure propagates to the caller as.
    pub fn into_error(self) -> (r: GenerateError)
        ensures
            r == failure_error(self),
    {
        match self {
            TransportFailure::SendFailed => GenerateError::NetworkError,
            TransportFailure::BodyUndecodable => GenerateError::DecodeError,
            TransportFailure::FetchFailed => GenerateError::NetworkError,
        }
    }
}

} // verus!
