//! The capture protocol: create, progress, confirm and output, each behind
//! the auth gate.

use vstd::prelude::*;
use crate::msg::corwrk::{
    ConfirmCaptureRequest, ConfirmCaptureResponse, InitiateCaptureRequest,
    QueryCaptureProgressResponse,
};
use crate::worker::auth::{bearer_prefix, get_bearer_token, header_token};
use crate::worker::state::{command_for, token_allowed, State};
use crate::worker::ticket::{ticket_text, Ticket};

verus! {

/// The answer to a request whose credential the auth gate refused.
#[derive(Clone, Copy, Debug, PartialEq, Eq, Structural)]
pub struct Unauthorized;

/// The text of an optional header value.
pub open spec fn header_text(header: Option<&str>) -> Option<Seq<char>> {
    match header {
        None => None,
        Some(h) => Some(h@),
    }
}

/// Whether a request with this `Authorization` header value passes the
/// auth gate of `s`.
pub open spec fn authorized(s: &State, header: Option<&str>) -> bool {
    token_allowed(s.tokens(), header_token(header_text(header)))
}

/// What a create request comes to once it has passed the auth gate.
pub enum CreateOutcome {
    /// No extractor of the requested name; nothing was registered.
    InvalidExtractor,
    /// The ticket drawn is already registered; nothing was registered.
    TicketInUse,
    /// `ticket` is registered as in progress: start a job that runs
    /// `command` on `url`, and answer with the ticket.
    Launch { ticket: Ticket, command: String, url: String },
}

/// What `capture_create` does, with `fresh` as the ticket drawn.
pub open spec fn create_post(
    old: &State,
    new: &State,
    header: Option<&str>,
    req: &InitiateCaptureRequest,
    fresh: Ticket,
    r: Result<CreateOutcome, Unauthorized>,
) -> bool {
    let command = command_for(old.extractor_table(), req.spec_extractor());
    if !authorized(old, header) {
        r == Err::<CreateOutcome, Unauthorized>(Unauthorized) && old.unchanged(new)
    } else if command.is_none() {
        r == Ok::<CreateOutcome, Unauthorized>(CreateOutcome::InvalidExtractor) && old.unchanged(
            new,
        )
    } else if old.statuses().contains_key(fresh.id) {
        r == Ok::<CreateOutcome, Unauthorized>(CreateOutcome::TicketInUse) && old.unchanged(new)
    } else {
        &&& new.statuses() == old.statuses().insert(
            fresh.id,
            QueryCaptureProgressResponse::InProgress,
        )
        &&& new.hashes() == old.hashes()
        &&& match r {
            Ok(CreateOutcome::Launch { ticket, command: c, url }) => {
                &&& ticket == fresh
                &&& Some(c@) == command
                &&& url@ == req.spec_url()
            },
            _ => false,
        }
    }
}

/// The answer to a confirmation of hash `h` for ticket `t`.
pub open spec fn confirm_answer(s: &State, t: u128, h: Seq<char>) -> ConfirmCaptureResponse {
    if !s.hashes().contains_key(t) {
        ConfirmCaptureResponse::NoSuchCapture
    } else if s.hashes()[t] == h {
        ConfirmCaptureResponse::CorrectHash
    } else {
        ConfirmCaptureResponse::IncorrectHash
    }
}

/// The auth gate: the header must read `Bearer <token>` with `<token>` on
/// the allow-list, exactly.
pub fn request_authorized(state: &State, header: Option<&str>) -> (r: bool)
    ensures
        r == authorized(state, header),
{
    let token = get_bearer_token(header);
    state.validate_auth_token(token)
}

/// Creates a capture with `fresh` as its ticket: auth gate, then the
/// extractor lookup, then registration. Nothing is registered unless a job
/// is to be launched.
pub fn capture_create(
    state: &mut State,
    header: Option<&str>,
    req: &InitiateCaptureRequest,
    fresh: Ticket,
) -> (r: Result<CreateOutcome, Unauthorized>)
    requires
        old(state).wf(),
    ensures
        final(state).wf(),
        final(state).same_config(old(state)),
        old(state).keeps_tickets(final(state)),
        create_post(old(state), final(state), header, req, fresh, r),
{
    if !request_authorized(state, header) {
        return Err(Unauthorized);
    }
    let command = match state.locate_extractor(req.extractor()) {
        None => {
            return Ok(CreateOutcome::InvalidExtractor);
        },
        Some(c) => c,
    };
    if state.capture_status(&fresh) != QueryCaptureProgressResponse::NoSuchCapture {
        return Ok(CreateOutcome::TicketInUse);
    }
    state.register_capture(fresh);
    Ok(CreateOutcome::Launch { ticket: fresh, command, url: req.url().to_owned() })
}

/// Creates a capture under a freshly drawn random ticket.
pub fn capture_create_random(
    state: &mut State,
    header: Option<&str>,
    req: &InitiateCaptureRequest,
) -> (r: Result<CreateOutcome, Unauthorized>)
    requires
        old(state).wf(),
    ensures
        final(state).wf(),
        final(state).same_config(old(state)),
        old(state).keeps_tickets(final(state)),
        exists|fresh: Ticket| create_post(old(state), final(state), header, req, fresh, r),
{
    let fresh = Ticket::new_random();
    capture_create(state, header, req, fresh)
}

/// The progress of a capture.
pub fn capture_progress(state: &State, header: Option<&str>, ticket: Ticket) -> (r: Result<
    QueryCaptureProgressResponse,
    Unauthorized,
>)
    ensures
        r == if authorized(state, header) {
            Ok::<QueryCaptureProgressResponse, Unauthorized>(state.status_of(ticket.id))
        } else {
            Err(Unauthorized)
        },
{
    if !request_authorized(state, header) {
        return Err(Unauthorized);
    }
    Ok(state.capture_status(&ticket))
}

/// Checks the hash a client expects against the stored one.
pub fn capture_confirm(state: &State, header: Option<&str>, req: &ConfirmCaptureRequest) -> (r:
    Result<ConfirmCaptureResponse, Unauthorized>)
    ensures
        r == if authorized(state, header) {
            Ok::<ConfirmCaptureResponse, Unauthorized>(
                confirm_answer(state, req.spec_ticket().id, req.spec_hash()),
            )
        } else {
            Err(Unauthorized)
        },
{
    if !request_authorized(state, header) {
        return Err(Unauthorized);
    }
    let known_hash = match state.get_hash(req.ticket()) {
        None => {
            return Ok(ConfirmCaptureResponse::NoSuchCapture);
        },
        Some(h) => h,
    };
    let expected = req.hash().to_owned();
    if known_hash == expected {
        Ok(ConfirmCaptureResponse::CorrectHash)
    } else {
        Ok(ConfirmCaptureResponse::IncorrectHash)
    }
}

/// The name of the blob file to stream for a ticket, inside the blob
/// directory. Whether the file exists is the only further gate.
pub fn capture_output(state: &State, header: Option<&str>, ticket: Ticket) -> (r: Result<
    String,
    Unauthorized,
>)
    ensures
        authorized(state, header) <==> r.is_ok(),
        r matches Ok(name) ==> name@ == ticket_text(ticket.id),
{
    if !request_authorized(state, header) {
        return Err(Unauthorized);
    }
    Ok(ticket.to_text())
}


/// The ticket that a create call launched a job for, if it did.
pub open spec fn launched(r: Result<CreateOutcome, Unauthorized>) -> Option<Ticket> {
    match r {
        Ok(CreateOutcome::Launch { ticket, .. }) => Some(ticket),
        _ => None,
    }
}

/// Tickets handed out by successful create calls are pairwise distinct: a
/// later create, on any state that still holds the tickets of an earlier
/// one, never hands out the earlier ticket again.
pub proof fn lemma_created_tickets_distinct(
    s0: &State,
    s1: &State,
    h1: Option<&str>,
    req1: &InitiateCaptureRequest,
    f1: Ticket,
    r1: Result<CreateOutcome, Unauthorized>,
    s2: &State,
    s3: &State,
    h2: Option<&str>,
    req2: &InitiateCaptureRequest,
    f2: Ticket,
    r2: Result<CreateOutcome, Unauthorized>,
)
    requires
        create_post(s0, s1, h1, req1, f1, r1),
        s1.keeps_tickets(s2),
        create_post(s2, s3, h2, req2, f2, r2),
        launched(r1).is_some(),
        launched(r2).is_some(),
    ensures
        launched(r1) != launched(r2),
{
    assert(s1.statuses().contains_key(f1.id));
    assert(s2.statuses().contains_key(f1.id));
}

/// Right after a create call launches a job, its ticket reports in
/// progress; a ticket never registered reports no such capture, and a
/// confirmation of it finds none.
pub proof fn lemma_created_in_progress(
    s0: &State,
    s1: &State,
    header: Option<&str>,
    req: &InitiateCaptureRequest,
    fresh: Ticket,
    r: Result<CreateOutcome, Unauthorized>,
    other: u128,
    h: Seq<char>,
)
    requires
        s1.wf(),
        create_post(s0, s1, header, req, fresh, r),
        !s1.statuses().contains_key(other),
    ensures
        launched(r) matches Some(t) ==> s1.status_of(t.id)
            == QueryCaptureProgressResponse::InProgress,
        s1.status_of(other) == QueryCaptureProgressResponse::NoSuchCapture,
        confirm_answer(s1, other, h) == ConfirmCaptureResponse::NoSuchCapture,
{
}

/// A confirmation answers correct exactly for the stored hash of a
/// completed capture, incorrect for any other hash of a completed capture,
/// and no such capture for a ticket unknown, in progress or failed.
pub proof fn lemma_confirm_answers(s: &State, t: u128, h: Seq<char>)
    requires
        s.wf(),
    ensures
        confirm_answer(s, t, h) == ConfirmCaptureResponse::CorrectHash <==> (s.status_of(t)
            == QueryCaptureProgressResponse::Completed && s.hashes()[t] == h),
        confirm_answer(s, t, h) == ConfirmCaptureResponse::IncorrectHash <==> (s.status_of(t)
            == QueryCaptureProgressResponse::Completed && s.hashes()[t] != h),
        confirm_answer(s, t, h) == ConfirmCaptureResponse::NoSuchCapture <==> s.status_of(t)
            != QueryCaptureProgressResponse::Completed,
{
    assert(s.hashes().contains_key(t) <==> (s.statuses().contains_key(t) && s.statuses()[t]
        == QueryCaptureProgressResponse::Completed));
}

/// The auth gate rejects a request without a header, one whose header
/// lacks the `Bearer ` prefix, and one whose token is not on the
/// allow-list; it accepts a listed token.
pub proof fn lemma_auth_gate(s: &State, header: Option<&str>)
    ensures
        header.is_none() ==> !authorized(s, header),
        header matches Some(h) ==> {
            let v = h@;
            if v.len() >= 7 && v.subrange(0, 7) == bearer_prefix() {
                authorized(s, header) <==> s.tokens().contains(v.subrange(7, v.len() as int))
            } else {
                !authorized(s, header)
            }
        },
{
}

/// Whether a request passes the auth gate does not depend on what other
/// requests came before: no operation changes the allow-list.
pub proof fn lemma_auth_independent_of_order(s1: &State, s2: &State, header: Option<&str>)
    requires
        s1.same_config(s2),
    ensures
        authorized(s1, header) == authorized(s2, header),
{
}

} // verus!
