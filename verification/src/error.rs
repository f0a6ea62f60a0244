//! The ways in which a request for content can fail.

use vstd::prelude::*;

verus! {

/// Why a request for content failed.
#[derive(Debug, Clone, PartialEq, Eq)]
pub enum FetchError {
    /// The client is switched off.
    Disabled,
    /// The project alias or the API key is empty.
    MisconfiguredCredentials,
    /// The request did not complete within the timeout.
    Timeout,
    /// The reply carried a status outside the success range.
    UpstreamError { status: u16, body: String },
    /// The body of a successful reply is not a content envelope.
    DecodeError,
    /// The envelope of a successful reply holds no item.
    EmptyContent,
}

/// A `FetchError` with its texts as sequences of characters.
pub enum Failure {
    Disabled,
    MisconfiguredCredentials,
    Timeout,
    UpstreamError { status: u16, body: Seq<char> },
    DecodeError,
    EmptyContent,
}

impl View for FetchError {
    type V = Failure;

    open spec fn view(&self) -> Failure {
        match *self {
            FetchError::Disabled => Failure::Disabled,
            FetchError::MisconfiguredCredentials => Failure::MisconfiguredCredentials,
            FetchError::Timeout => Failure::Timeout,
            FetchError::UpstreamError { status, body } => Failure::UpstreamError {
                status,
                body: body@,
            },
            FetchError::DecodeError => Failure::DecodeError,
            FetchError::EmptyContent => Failure::EmptyContent,
        }
    }
}

impl Failure {
    /// The failure came from the request itself: a timeout, a status outside
    /// the success range, or a body that is no envelope.
    pub open spec fn from_transport(self) -> bool {
        self is Timeout || self is UpstreamError || self is DecodeError
    }
}

} // verus!
