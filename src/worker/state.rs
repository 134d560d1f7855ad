//! The state a worker shares between its request handlers and capture jobs:
//! the token allow-list, the extractor table, and each ticket's status and
//! result hash.

use std::collections::HashMap;
use vstd::prelude::*;
use crate::msg::corwrk::QueryCaptureProgressResponse;
use crate::worker::ticket::Ticket;

verus! {

broadcast use vstd::std_specs::hash::group_hash_axioms;

/// The text of an optional string.
pub open spec fn opt_text(o: Option<String>) -> Option<Seq<char>> {
    match o {
        None => None,
        Some(s) => Some(s@),
    }
}

/// Whether `token` is present and is one of `tokens`, compared exactly.
pub open spec fn token_allowed(tokens: Seq<Seq<char>>, token: Option<Seq<char>>) -> bool {
    match token {
        None => false,
        Some(t) => tokens.contains(t),
    }
}

/// The command of the first entry of `table` named `name`, if any.
pub open spec fn command_for(table: Seq<(Seq<char>, Seq<char>)>, name: Seq<char>) -> Option<
    Seq<char>,
>
    decreases table.len(),
{
    if table.len() == 0 {
        None
    } else if table[0].0 == name {
        Some(table[0].1)
    } else {
        command_for(table.drop_first(), name)
    }
}

/// A status that a registry stores: not the reserved value, nor the answer
/// for unknown tickets.
pub open spec fn is_stored_status(s: QueryCaptureProgressResponse) -> bool {
    s == QueryCaptureProgressResponse::InProgress || s == QueryCaptureProgressResponse::Completed
        || s == QueryCaptureProgressResponse::Failed
}

/// A terminal status: a capture there never moves again.
pub open spec fn is_terminal(s: QueryCaptureProgressResponse) -> bool {
    s == QueryCaptureProgressResponse::Completed || s == QueryCaptureProgressResponse::Failed
}

pub struct State {
    auth_tokens: Vec<String>,
    extractors: Vec<(String, String)>,
    tasks: HashMap<u128, QueryCaptureProgressResponse>,
    blob_hashes: HashMap<u128, String>,
    blob_dir: String,
}

impl State {
    /// The allow-list of bearer tokens.
    pub closed spec fn tokens(&self) -> Seq<Seq<char>> {
        self.auth_tokens@.map_values(|s: String| s@)
    }

    /// The extractor table: pairs of a name and the command to run.
    pub closed spec fn extractor_table(&self) -> Seq<(Seq<char>, Seq<char>)> {
        self.extractors@.map_values(|e: (String, String)| (e.0@, e.1@))
    }

    /// The directory that holds the blobs.
    pub closed spec fn blob_directory(&self) -> Seq<char> {
        self.blob_dir@
    }

    /// The status of each registered ticket.
    pub closed spec fn statuses(&self) -> Map<u128, QueryCaptureProgressResponse> {
        self.tasks@
    }

    /// The result hash of each completed capture.
    pub closed spec fn hashes(&self) -> Map<u128, Seq<char>> {
        self.blob_hashes@.map_values(|s: String| s@)
    }

    /// What a progress query reports for ticket `t`.
    pub open spec fn status_of(&self, t: u128) -> QueryCaptureProgressResponse {
        if self.statuses().contains_key(t) {
            self.statuses()[t]
        } else {
            QueryCaptureProgressResponse::NoSuchCapture
        }
    }

    /// Only stored statuses are held, and a hash exists exactly for the
    /// completed captures.
    pub open spec fn wf(&self) -> bool {
        &&& forall|t: u128| #[trigger]
            self.statuses().contains_key(t) ==> is_stored_status(self.statuses()[t])
        &&& forall|t: u128| #[trigger]
            self.hashes().contains_key(t) <==> (self.statuses().contains_key(t)
                && self.statuses()[t] == QueryCaptureProgressResponse::Completed)
    }

    /// `self` and `other` hold the same configuration: tokens, extractors
    /// and blob directory.
    pub open spec fn same_config(&self, other: &State) -> bool {
        &&& self.tokens() == other.tokens()
        &&& self.extractor_table() == other.extractor_table()
        &&& self.blob_directory() == other.blob_directory()
    }

    /// Every ticket registered in `self` is still registered in `other`.
    pub open spec fn keeps_tickets(&self, other: &State) -> bool {
        forall|t: u128| #[trigger]
            self.statuses().contains_key(t) ==> other.statuses().contains_key(t)
    }

    /// `new` holds the same captures as `self`.
    pub open spec fn unchanged(&self, new: &State) -> bool {
        &&& new.statuses() == self.statuses()
        &&& new.hashes() == self.hashes()
    }

    /// `new` is `self` with ticket `t` moved to failed if it was in progress,
    /// and nothing else changed.
    pub open spec fn aborted(&self, new: &State, t: u128) -> bool {
        if self.status_of(t) == QueryCaptureProgressResponse::InProgress {
            &&& new.statuses() == self.statuses().insert(t, QueryCaptureProgressResponse::Failed)
            &&& new.hashes() == self.hashes()
        } else {
            self.unchanged(new)
        }
    }

    /// `new` is `self` with ticket `t` moved to completed with hash `h` if it
    /// was in progress, and nothing else changed.
    pub open spec fn finalized(&self, new: &State, t: u128, h: Seq<char>) -> bool {
        if self.status_of(t) == QueryCaptureProgressResponse::InProgress {
            &&& new.statuses() == self.statuses().insert(t, QueryCaptureProgressResponse::Completed)
            &&& new.hashes() == self.hashes().insert(t, h)
        } else {
            self.unchanged(new)
        }
    }

    /// A state with the given configuration and no capture registered.
    pub fn from_config(
        auth_tokens: Vec<String>,
        extractors: Vec<(String, String)>,
        blob_dir: String,
    ) -> (r: State)
        ensures
            r.wf(),
            r.tokens() == auth_tokens@.map_values(|s: String| s@),
            r.extractor_table() == extractors@.map_values(|e: (String, String)| (e.0@, e.1@)),
            r.blob_directory() == blob_dir@,
            r.statuses() == Map::<u128, QueryCaptureProgressResponse>::empty(),
            r.hashes() == Map::<u128, Seq<char>>::empty(),
    {
        let r = State {
            auth_tokens,
            extractors,
            tasks: HashMap::new(),
            blob_hashes: HashMap::new(),
            blob_dir,
        };
        assert(r.hashes() =~= Map::<u128, Seq<char>>::empty());
        r
    }

    /// Checks a bearer token against the allow-list, exactly and
    /// case-sensitively. No token is never accepted.
    pub fn validate_auth_token(&self, token: Option<String>) -> (r: bool)
        ensures
            r == token_allowed(self.tokens(), opt_text(token)),
    {
        match &token {
            None => false,
            Some(a) => {
                let n = self.auth_tokens.len();
                let mut i: usize = 0;
                while i < n
                    invariant
                        n == self.auth_tokens@.len(),
                        i <= n,
                        opt_text(token) == Some(a@),
                        forall|j: int| 0 <= j < i ==> self.auth_tokens@[j]@ != a@,
                    decreases n - i,
                {
                    if self.auth_tokens[i] == *a {
                        assert(self.tokens()[i as int] == a@);
                        assert(self.auth_tokens@[i as int]@ == a@);
                        assert(self.tokens().contains(a@));
                        return true;
                    }
                    i = i + 1;
                }
                assert(!self.tokens().contains(a@)) by {
                    if self.tokens().contains(a@) {
                        let k = choose|k: int| 0 <= k < n && self.tokens()[k] == a@;
                        assert(self.auth_tokens@[k]@ == a@);
                    }
                }
                false
            },
        }
    }

    /// The command registered for the extractor `extractor`; the first
    /// entry wins where a name occurs twice.
    pub fn locate_extractor(&self, extractor: &str) -> (r: Option<String>)
        ensures
            opt_text(r) == command_for(self.extractor_table(), extractor@),
    {
        let name = extractor.to_owned();
        let n = self.extractors.len();
        let ghost table = self.extractor_table();
        let mut i: usize = 0;
        assert(table.skip(0) =~= table);
        while i < n
            invariant
                n == self.extractors@.len(),
                table == self.extractor_table(),
                table.len() == n,
                i <= n,
                name@ == extractor@,
                command_for(table.skip(i as int), name@) == command_for(table, name@),
            decreases n - i,
        {
            assert(table.skip(i as int)[0] == table[i as int]);
            if self.extractors[i].0 == name {
                return Some(self.extractors[i].1.clone());
            }
            assert(table.skip(i as int).drop_first() =~= table.skip(i + 1));
            i = i + 1;
        }
        None
    }

    /// The directory that holds the blobs.
    pub fn blob_dir(&self) -> (r: &str)
        ensures
            r@ == self.blob_directory(),
    {
        self.blob_dir.as_str()
    }

    /// The status of a capture; `NoSuchCapture` for a ticket never
    /// registered.
    pub fn capture_status(&self, ticket: &Ticket) -> (r: QueryCaptureProgressResponse)
        ensures
            r == self.status_of(ticket.id),
    {
        match self.tasks.get(&ticket.id) {
            Some(s) => *s,
            None => QueryCaptureProgressResponse::NoSuchCapture,
        }
    }

    /// Registers a new ticket as in progress.
    pub fn register_capture(&mut self, ticket: Ticket)
        requires
            old(self).wf(),
            !old(self).statuses().contains_key(ticket.id),
        ensures
            final(self).wf(),
            final(self).same_config(old(self)),
            old(self).keeps_tickets(final(self)),
            final(self).statuses() == old(self).statuses().insert(
                ticket.id,
                QueryCaptureProgressResponse::InProgress,
            ),
            final(self).hashes() == old(self).hashes(),
    {
        self.tasks.insert(ticket.id, QueryCaptureProgressResponse::InProgress);
        assert forall|t: u128| #[trigger]
            self.hashes().contains_key(t) <==> (self.statuses().contains_key(t)
                && self.statuses()[t] == QueryCaptureProgressResponse::Completed) by {
            assert(old(self).hashes().contains_key(t) <==> (old(self).statuses().contains_key(t)
                && old(self).statuses()[t] == QueryCaptureProgressResponse::Completed));
        }
    }

    /// Marks an in-progress capture as failed. A capture in any other state
    /// is left as it is: a status never moves back.
    pub fn abort_capture(&mut self, ticket: Ticket)
        requires
            old(self).wf(),
        ensures
            final(self).wf(),
            final(self).same_config(old(self)),
            old(self).keeps_tickets(final(self)),
            old(self).aborted(final(self), ticket.id),
    {
        if self.capture_status(&ticket) == QueryCaptureProgressResponse::InProgress {
            self.tasks.insert(ticket.id, QueryCaptureProgressResponse::Failed);
            assert forall|t: u128| #[trigger]
                self.hashes().contains_key(t) <==> (self.statuses().contains_key(t)
                    && self.statuses()[t] == QueryCaptureProgressResponse::Completed) by {
                assert(old(self).hashes().contains_key(t) <==> (old(self).statuses().contains_key(
                    t,
                ) && old(self).statuses()[t] == QueryCaptureProgressResponse::Completed));
            }
        }
    }

    /// Marks an in-progress capture as completed, with the hash of its
    /// blob. A capture in any other state is left as it is.
    pub fn finalize_capture(&mut self, ticket: Ticket, hash: String)
        requires
            old(self).wf(),
        ensures
            final(self).wf(),
            final(self).same_config(old(self)),
            old(self).keeps_tickets(final(self)),
            old(self).finalized(final(self), ticket.id, hash@),
    {
        if self.capture_status(&ticket) == QueryCaptureProgressResponse::InProgress {
            self.tasks.insert(ticket.id, QueryCaptureProgressResponse::Completed);
            let ghost h = hash@;
            self.blob_hashes.insert(ticket.id, hash);
            assert(self.hashes() =~= old(self).hashes().insert(ticket.id, h));
        }
    }

    /// The hash of a completed capture; `None` for any other ticket.
    pub fn get_hash(&self, ticket: &Ticket) -> (r: Option<String>)
        ensures
            opt_text(r) == if self.hashes().contains_key(ticket.id) {
                Some(self.hashes()[ticket.id])
            } else {
                None::<Seq<char>>
            },
    {
        match self.blob_hashes.get(&ticket.id) {
            Some(h) => Some(h.clone()),
            None => None,
        }
    }
}


/// Keeping the registered tickets carries over a chain of steps.
pub proof fn lemma_keeps_tickets_trans(s0: &State, s1: &State, s2: &State)
    requires
        s0.keeps_tickets(s1),
        s1.keeps_tickets(s2),
    ensures
        s0.keeps_tickets(s2),
{
}

/// Statuses only move forward: failing or completing a capture changes no
/// status but that of its own ticket, and only from in progress, so a
/// terminal status is never left.
pub proof fn lemma_terminal_status_kept(s0: &State, s1: &State, t: u128, h: Seq<char>, u: u128)
    requires
        s0.aborted(s1, t) || s0.finalized(s1, t, h),
    ensures
        is_terminal(s0.status_of(u)) ==> s1.status_of(u) == s0.status_of(u),
        s1.status_of(u) != s0.status_of(u) ==> u == t && s0.status_of(t)
            == QueryCaptureProgressResponse::InProgress && is_terminal(s1.status_of(t)),
{
}

} // verus!
