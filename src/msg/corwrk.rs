//! Messages passed between the identity tier and a worker.

use vstd::prelude::*;
use crate::worker::ticket::Ticket;

verus! {

/// A request to capture `url` with the extractor registered as `extractor`.
pub struct InitiateCaptureRequest {
    url: String,
    extractor: String,
}

impl InitiateCaptureRequest {
    pub closed spec fn spec_url(&self) -> Seq<char> {
        self.url@
    }

    pub closed spec fn spec_extractor(&self) -> Seq<char> {
        self.extractor@
    }

    pub fn new(url: String, extractor: String) -> (r: InitiateCaptureRequest)
        ensures
            r.spec_url() == url@,
            r.spec_extractor() == extractor@,
    {
        InitiateCaptureRequest { url, extractor }
    }

    /// The text of the URL to capture.
    pub fn url(&self) -> (r: &str)
        ensures
            r@ == self.spec_url(),
    {
        self.url.as_str()
    }

    /// The name of the extractor to run.
    pub fn extractor(&self) -> (r: &str)
        ensures
            r@ == self.spec_extractor(),
    {
        self.extractor.as_str()
    }
}

/// The answer to a capture request.
#[derive(Clone, Copy, Debug, PartialEq, Eq, Structural)]
pub enum InitiateCaptureResponse {
    Initiated { ticket: Ticket },
    InvalidUrl,
    InvalidExtractor,
}

/// Where a capture stands. `UnsupportedUrl` is reserved and never reported;
/// `NoSuchCapture` answers for a ticket that was never registered.
#[derive(Clone, Copy, Debug, PartialEq, Eq, Structural)]
pub enum QueryCaptureProgressResponse {
    InProgress,
    UnsupportedUrl,
    Failed,
    Completed,
    NoSuchCapture,
}

/// A request to check a capture's blob against the hash a client expects.
pub struct ConfirmCaptureRequest {
    ticket: Ticket,
    hash: String,
}

impl ConfirmCaptureRequest {
    pub closed spec fn spec_ticket(&self) -> Ticket {
        self.ticket
    }

    pub closed spec fn spec_hash(&self) -> Seq<char> {
        self.hash@
    }

    pub fn new(ticket: Ticket, hash: String) -> (r: ConfirmCaptureRequest)
        ensures
            r.spec_ticket() == ticket,
            r.spec_hash() == hash@,
    {
        ConfirmCaptureRequest { ticket, hash }
    }

    /// The ticket of the capture to check.
    pub fn ticket(&self) -> (r: &Ticket)
        ensures
            *r == self.spec_ticket(),
    {
        &self.ticket
    }

    /// The hash the client expects, in lowercase hex.
    pub fn hash(&self) -> (r: &str)
        ensures
            r@ == self.spec_hash(),
    {
        self.hash.as_str()
    }
}

/// The answer to a confirmation request.
#[derive(Clone, Copy, Debug, PartialEq, Eq, Structural)]
pub enum ConfirmCaptureResponse {
    CorrectHash,
    IncorrectHash,
    NoSuchCapture,
}

/// A request naming a capture by its hash.
pub struct ScrubCaptureRequest {
    hash: String,
}

impl ScrubCaptureRequest {
    pub closed spec fn spec_hash(&self) -> Seq<char> {
        self.hash@
    }

    pub fn new(hash: String) -> (r: ScrubCaptureRequest)
        ensures
            r.spec_hash() == hash@,
    {
        ScrubCaptureRequest { hash }
    }

    /// The hash that names the capture.
    pub fn hash(&self) -> (r: &str)
        ensures
            r@ == self.spec_hash(),
    {
        self.hash.as_str()
    }
}

} // verus!
