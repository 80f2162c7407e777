//! Why a transfer failed.

use vstd::prelude::*;

verus! {

/// The failure of one file's transfer, or of a whole batch.
#[derive(Debug, Clone)]
pub enum TransferError {
    /// The local file could not be opened or read.
    Io(String),
    /// The connection failed or the server answered with a failure code.
    Transport(String),
    /// The service's answer could not be decoded; the raw answer is kept.
    Decode(String),
    /// The service answered with an error status and this message.
    Service(String),
    /// The service answered with success but without the expected payload.
    MissingData,
    /// The ticket asks for a multipart upload, which this client does not do.
    MultipartUnsupported,
}

impl TransferError {
    /// The text shown for this error.
    pub open spec fn text(&self) -> Seq<char> {
        match self {
            TransferError::Io(m) => "I/O error: "@ + m@,
            TransferError::Transport(m) => "Request failed: "@ + m@,
            TransferError::Decode(m) => "Could not decode the response: "@ + m@,
            TransferError::Service(m) => m@,
            TransferError::MissingData => "The response holds no data"@,
            TransferError::MultipartUnsupported => "Multipart upload not supported yet"@,
        }
    }

    pub fn to_text(&self) -> (r: String)
        ensures
            r@ == self.text(),
    {
        match self {
            TransferError::Io(m) => {
                let mut s = String::from_str("I/O error: ");
                s.append(m.as_str());
                s
            },
            TransferError::Transport(m) => {
                let mut s = String::from_str("Request failed: ");
                s.append(m.as_str());
                s
            },
            TransferError::Decode(m) => {
                let mut s = String::from_str("Could not decode the response: ");
                s.append(m.as_str());
                s
            },
            TransferError::Service(m) => m.clone(),
            TransferError::MissingData => String::from_str("The response holds no data"),
            TransferError::MultipartUnsupported => String::from_str(
                "Multipart upload not supported yet",
            ),
        }
    }
}

} // verus!
