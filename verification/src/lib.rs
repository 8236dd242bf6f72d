//! Client-side logic for a remote file-storage service.
//!
//! The service stores named files behind four HTTP endpoints: list, download,
//! upload and delete. This crate holds everything about those operations that
//! can be decided locally: command-line dispatch, download-destination
//! resolution, remote-name derivation for uploads, interpretation of HTTP
//! statuses and response bodies, and the text the client prints. The
//! surrounding binary performs the actual network and file I/O and feeds the
//! results back in as plain values.

use vstd::prelude::*;

pub mod args;
pub mod config;
pub mod list;
pub mod model;
pub mod paths;
pub mod response;
pub mod text;

verus! {

use vstd::string::StringExecFns;

/// The ways a client operation can fail.
#[derive(Clone, Copy, PartialEq, Eq, Structural, Debug)]
pub enum TransferError {
    /// A required command-line argument is missing.
    Argument,
    /// The request could not be sent or the response not read.
    Network,
    /// The HTTP response carried a non-success status.
    Server(u16),
    /// The response body did not have the expected shape.
    Decode,
    /// A local file could not be read or written.
    Io,
}

impl TransferError {
    /// The message printed when an operation fails with this error.
    pub open spec fn spec_message(&self) -> Seq<char> {
        match self {
            TransferError::Argument => "missing argument"@,
            TransferError::Network => "the request could not be sent or the response not read"@,
            TransferError::Server(code) => "the server answered with HTTP status "@
                + crate::response::spec_status_text(*code),
            TransferError::Decode => "the response body did not have the expected shape"@,
            TransferError::Io => "a local file could not be read or written"@,
        }
    }

    /// Render the message for this error.
    pub fn message(&self) -> (r: String)
        ensures
            r@ == self.spec_message(),
    {
        match self {
            TransferError::Argument => String::from_str("missing argument"),
            TransferError::Network => String::from_str(
                "the request could not be sent or the response not read",
            ),
            TransferError::Server(code) => {
                let digits = crate::response::status_text(*code);
                crate::text::str_concat("the server answered with HTTP status ", digits.as_str())
            },
            TransferError::Decode => String::from_str(
                "the response body did not have the expected shape",
            ),
            TransferError::Io => String::from_str("a local file could not be read or written"),
        }
    }
}

/// Whether an HTTP status code counts as success (the 2xx range).
pub fn is_success_status(status: u16) -> (r: bool)
    ensures
        r == (200 <= status < 300),
{
    200 <= status && status < 300
}

} // verus!
