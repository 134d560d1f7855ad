//! The decisions of a capture job. The job runs the extractor, then, on
//! success, writes the blob; each outcome is handed to a function here,
//! which updates the shared state and says what comes next.

use vstd::prelude::*;
use crate::worker::digest::{blob_digest_text, blob_hash};
use crate::msg::corwrk::QueryCaptureProgressResponse;
use crate::worker::state::State;
use crate::worker::ticket::Ticket;

verus! {

/// How the extractor process ended.
pub enum ExtractorOutcome {
    /// The process could not be started.
    SpawnFailed,
    /// The process ran and exited; `success` is a zero exit status, and
    /// `stdout` all it wrote to its standard output.
    Exited { success: bool, stdout: Vec<u8> },
}

/// Why a blob could not be written.
#[derive(Clone, Copy, Debug, PartialEq, Eq, Structural)]
pub enum WriteBlobError {
    CreateBlobFile,
    WriteBlobFile,
}

/// Takes the end of the extractor process. A failed start or a non-zero
/// exit fails the capture, and the output is dropped. On success the state
/// is left as it is and the bytes to store as the blob are returned.
pub fn on_extractor_exit(state: &mut State, ticket: Ticket, outcome: ExtractorOutcome) -> (r:
    Option<Vec<u8>>)
    requires
        old(state).wf(),
    ensures
        final(state).wf(),
        final(state).same_config(old(state)),
        old(state).keeps_tickets(final(state)),
        match outcome {
            ExtractorOutcome::Exited { success: true, stdout } => {
                &&& r == Some(stdout)
                &&& old(state).unchanged(final(state))
            },
            _ => {
                &&& r.is_none()
                &&& old(state).aborted(final(state), ticket.id)
            },
        },
{
    match outcome {
        ExtractorOutcome::Exited { success: true, stdout } => Some(stdout),
        _ => {
            state.abort_capture(ticket);
            None
        },
    }
}

/// Takes the result of writing the blob. Once it is stored the capture
/// completes with the blob's hash; a storage error fails it.
pub fn on_blob_stored(
    state: &mut State,
    ticket: Ticket,
    blob: &[u8],
    stored: Result<(), WriteBlobError>,
)
    requires
        old(state).wf(),
    ensures
        final(state).wf(),
        final(state).same_config(old(state)),
        old(state).keeps_tickets(final(state)),
        stored.is_ok() ==> old(state).finalized(final(state), ticket.id, blob_digest_text(blob@)),
        stored.is_err() ==> old(state).aborted(final(state), ticket.id),
{
    match stored {
        Ok(()) => {
            let hash = blob_hash(blob);
            state.finalize_capture(ticket, hash);
        },
        Err(_) => {
            state.abort_capture(ticket);
        },
    }
}


/// A job on an in-progress capture ends it: a successful extractor run
/// whose blob is stored leaves it completed, with the blob's hash stored; a
/// failed run, or a blob that could not be stored, leaves it failed.
pub proof fn lemma_job_ends_capture(
    s0: &State,
    s1: &State,
    s2: &State,
    t: u128,
    blob: Seq<u8>,
    extracted: bool,
    stored: bool,
)
    requires
        s0.status_of(t) == QueryCaptureProgressResponse::InProgress,
        extracted ==> s0.unchanged(s1),
        !extracted ==> s0.aborted(s1, t) && s1.unchanged(s2),
        extracted && stored ==> s1.finalized(s2, t, blob_digest_text(blob)),
        extracted && !stored ==> s1.aborted(s2, t),
    ensures
        extracted && stored ==> {
            &&& s2.status_of(t) == QueryCaptureProgressResponse::Completed
            &&& s2.hashes()[t] == blob_digest_text(blob)
        },
        !(extracted && stored) ==> s2.status_of(t) == QueryCaptureProgressResponse::Failed,
{
}

/// Storing equal blobs under two tickets records equal hashes for both.
pub proof fn lemma_equal_blobs_equal_hashes(
    a0: &State,
    a1: &State,
    ta: u128,
    blob_a: Seq<u8>,
    b0: &State,
    b1: &State,
    tb: u128,
    blob_b: Seq<u8>,
)
    requires
        a0.status_of(ta) == QueryCaptureProgressResponse::InProgress,
        a0.finalized(a1, ta, blob_digest_text(blob_a)),
        b0.status_of(tb) == QueryCaptureProgressResponse::InProgress,
        b0.finalized(b1, tb, blob_digest_text(blob_b)),
        blob_a == blob_b,
    ensures
        a1.hashes()[ta] == b1.hashes()[tb],
{
}

} // verus!
