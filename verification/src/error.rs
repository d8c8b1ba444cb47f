//! Errors of the streams.
use vstd::prelude::*;
use vstd::string::StringExecFns;

verus! {

/// The class of an error, as I/O errors are classed. What no stream tells apart is `Other`.
#[derive(Debug, Clone, Copy, PartialEq, Eq, Structural)]
pub enum ErrorKind {
    /// A parameter was incorrect.
    InvalidInput,
    /// The operation needs to block to complete.
    WouldBlock,
    /// The operation was interrupted and can be tried again.
    Interrupted,
    /// Anything else.
    Other,
}

/// Why an endpoint carries no remote offer.
#[derive(Debug, Clone, Copy, PartialEq, Eq, Structural)]
pub enum OfferError {
    /// The endpoint does not start with the scheme of WebRTC endpoints.
    Format,
    /// What follows the scheme is not Base64.
    Base64,
    /// The decoded bytes are not UTF-8.
    Utf8,
}

impl OfferError {
    /// The class of the error.
    pub fn kind(&self) -> (kind: ErrorKind)
        ensures
            kind == ErrorKind::InvalidInput,
    {
        ErrorKind::InvalidInput
    }

    /// The text that describes the error.
    pub open spec fn text(self) -> Seq<char> {
        match self {
            OfferError::Format => "Invalid WebRTC endpoint format"@,
            OfferError::Base64 => "Failed to decode Base64 SDP"@,
            OfferError::Utf8 => "Failed to convert decoded bytes to UTF-8"@,
        }
    }

    /// Describes the error.
    pub fn message(&self) -> (message: String)
        ensures
            message@ == self.text(),
            message@ == (match *self {
                OfferError::Format => "Invalid WebRTC endpoint format"@,
                OfferError::Base64 => "Failed to decode Base64 SDP"@,
                OfferError::Utf8 => "Failed to convert decoded bytes to UTF-8"@,
            }),
    {
        match self {
            OfferError::Format => "Invalid WebRTC endpoint format".to_owned(),
            OfferError::Base64 => "Failed to decode Base64 SDP".to_owned(),
            OfferError::Utf8 => "Failed to convert decoded bytes to UTF-8".to_owned(),
        }
    }
}

/// Why an endpoint could not be taken as the remote description.
#[derive(Debug)]
pub enum EndpointError {
    /// The endpoint carries no offer.
    Offer(OfferError),
    /// The offer is not a session description in JSON.
    Description(serde_json::Error),
}

/// The local description was asked for before it was set.
#[derive(Debug, Clone, Copy, PartialEq, Eq, Structural)]
pub struct NoLocalDescription;

impl NoLocalDescription {
    /// Describes the error.
    pub fn message(&self) -> (message: String)
        ensures
            message@ == "Local description is not set"@,
    {
        "Local description is not set".to_owned()
    }
}

/// Why nothing was received over the data channel.
#[derive(Debug, PartialEq, Eq)]
pub enum ReadError {
    /// Reading failed, for the reason that the text gives.
    Failed(String),
    /// The data channel was closed: reading gave no bytes.
    Closed,
}

impl ReadError {
    /// The class of the error.
    pub fn kind(&self) -> (kind: ErrorKind)
        ensures
            kind == ErrorKind::Other,
    {
        ErrorKind::Other
    }

    /// The text that describes the error.
    pub open spec fn text(self) -> Seq<char> {
        match self {
            ReadError::Failed(reason) => "data channel read error: "@ + reason@,
            ReadError::Closed => "data channel read exited with 0 bytes"@,
        }
    }

    /// Describes the error.
    pub fn message(&self) -> (message: String)
        ensures
            message@ == self.text(),
            message@ == (match *self {
                ReadError::Failed(reason) => "data channel read error: "@ + reason@,
                ReadError::Closed => "data channel read exited with 0 bytes"@,
            }),
    {
        match self {
            ReadError::Failed(reason) => "data channel read error: ".to_owned().concat(
                reason.as_str(),
            ),
            ReadError::Closed => "data channel read exited with 0 bytes".to_owned(),
        }
    }
}

} // verus!
