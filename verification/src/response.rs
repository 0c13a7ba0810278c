//! What the service answers: a status code and a body that the caller
//! serialises.

use crate::store::{download_url, download_url_of};
use crate::text::{concat3, decimal, render_decimal};
use vstd::prelude::*;
use vstd::string::*;

verus! {

/// Status of a successful upload.
pub const STATUS_OK: u16 = 200;

/// Status of an upload without a single accepted file.
pub const STATUS_BAD_REQUEST: u16 = 400;

/// Status of a download for which no artifact exists.
pub const STATUS_NOT_FOUND: u16 = 404;

/// Status of an upload that failed on the server's side.
pub const STATUS_SERVER_ERROR: u16 = 500;

/// Body of an answer.
#[derive(Clone, Debug, PartialEq, Eq)]
pub enum Body {
    /// The merge succeeded.
    Merged { message: String, download_url: String },
    /// The request failed; `reason` says why.
    Error { reason: String },
}

/// An answer to a client.
#[derive(Clone, Debug, PartialEq, Eq)]
pub struct Response {
    pub status: u16,
    pub body: Body,
}

/// A `Body` as plain values.
pub enum BodyView {
    Merged { message: Seq<char>, download_url: Seq<char> },
    Error { reason: Seq<char> },
}

/// A `Response` as plain values.
pub struct ResponseView {
    pub status: u16,
    pub body: BodyView,
}

impl View for Body {
    type V = BodyView;

    open spec fn view(&self) -> BodyView {
        match self {
            Body::Merged { message, download_url } => BodyView::Merged {
                message: message@,
                download_url: download_url@,
            },
            Body::Error { reason } => BodyView::Error { reason: reason@ },
        }
    }
}

impl View for Response {
    type V = ResponseView;

    open spec fn view(&self) -> ResponseView {
        ResponseView { status: self.status, body: self.body@ }
    }
}

/// The sentence that reports a merge of `count` files.
pub open spec fn merged_message(count: nat) -> Seq<char> {
    "Successfully merged "@ + decimal(count) + " images"@
}

/// The answer to an upload whose `count` accepted files were merged into
/// the artifact `id`.
pub open spec fn merged(id: Seq<char>, count: nat) -> ResponseView {
    ResponseView {
        status: 200,
        body: BodyView::Merged { message: merged_message(count), download_url: download_url(id) },
    }
}

/// An answer that reports a failure.
pub open spec fn failure(status: u16, reason: Seq<char>) -> ResponseView {
    ResponseView { status, body: BodyView::Error { reason } }
}

/// The answer to an upload in which no file was accepted.
pub open spec fn no_valid_files() -> ResponseView {
    failure(400, "No ORF files uploaded"@)
}

/// The answer to an upload whose merge the tool reported as failed.
pub open spec fn merge_failed() -> ResponseView {
    failure(500, "Failed to merge HDR images"@)
}

/// The answer to an upload for which the tool could not be started.
pub open spec fn launch_failed() -> ResponseView {
    failure(500, "Failed to execute hdrmerge"@)
}

/// The answer to an upload that failed on reading or writing a file.
pub open spec fn storage_failed() -> ResponseView {
    failure(500, "Failed to store files"@)
}

/// The answer to a download for which no artifact exists.
pub open spec fn not_found() -> ResponseView {
    failure(404, "Artifact not found"@)
}

impl Response {
    /// Answers an upload whose `count` files were merged into `id`.
    pub fn merged(id: &str, count: usize) -> (r: Response)
        ensures
            r@ == merged(id@, count as nat),
    {
        let number = render_decimal(count);
        let message = concat3("Successfully merged ", number.as_str(), " images");
        Response {
            status: STATUS_OK,
            body: Body::Merged { message, download_url: download_url_of(id) },
        }
    }

    /// Answers an upload in which no file was accepted.
    pub fn no_valid_files() -> (r: Response)
        ensures
            r@ == no_valid_files(),
    {
        Response {
            status: STATUS_BAD_REQUEST,
            body: Body::Error { reason: String::from_str("No ORF files uploaded") },
        }
    }

    /// Answers an upload whose merge attempt made no artifact, for the
    /// reason given.
    pub fn failed(reason: String) -> (r: Response)
        ensures
            r@ == failure(500, reason@),
    {
        Response { status: STATUS_SERVER_ERROR, body: Body::Error { reason } }
    }

    /// Answers an upload that failed on reading or writing a file.
    pub fn storage_failed() -> (r: Response)
        ensures
            r@ == storage_failed(),
    {
        Response {
            status: STATUS_SERVER_ERROR,
            body: Body::Error { reason: String::from_str("Failed to store files") },
        }
    }

    /// Answers a download for which no artifact exists.
    pub fn not_found() -> (r: Response)
        ensures
            r@ == not_found(),
    {
        Response {
            status: STATUS_NOT_FOUND,
            body: Body::Error { reason: String::from_str("Artifact not found") },
        }
    }
}

} // verus!
