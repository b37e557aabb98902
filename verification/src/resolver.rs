//! Fallback between alternative executable names: candidates are tried in
//! their fixed priority order; a spawn failure moves on to the next
//! candidate, while any spawned process — whatever its exit status — ends
//! the search with that process's result.

use vstd::prelude::*;
use crate::CommandResult;

verus! {

/// What became of one attempt to spawn a candidate: the process ran to
/// completion (with whatever exit status), or the host could not create the
/// process at all and reported the cause.
pub enum Attempt {
    Spawned(CommandResult),
    Failed(String),
}

/// Walks an ordered candidate list. The caller spawns the current candidate,
/// reports the attempt through `record`, and repeats while `record` yields
/// no verdict.
pub struct Resolver {
    pub candidates: Vec<String>,
    pub next: usize,
}

impl Resolver {
    /// The cursor never passes the end of the candidate list.
    pub open spec fn wf(&self) -> bool {
        self.next <= self.candidates@.len()
    }

    /// A candidate is still waiting to be tried.
    pub open spec fn pending(&self) -> bool {
        self.next < self.candidates@.len()
    }

    /// Starts a resolution at the highest-priority candidate.
    pub fn new(candidates: Vec<String>) -> (r: Resolver)
        ensures
            r.candidates == candidates,
            r.next == 0,
            r.wf(),
    {
        Resolver { candidates, next: 0 }
    }

    /// The candidate to spawn next, or `None` when every candidate has been
    /// tried.
    pub fn current(&self) -> (r: Option<&String>)
        requires
            self.wf(),
        ensures
            self.pending() ==> (r matches Some(c) && c@ == self.candidates@[self.next as int]@),
            !self.pending() ==> r is None,
    {
        if self.next < self.candidates.len() {
            Some(&self.candidates[self.next])
        } else {
            None
        }
    }

    /// Records the attempt on the current candidate. A spawned process ends
    /// the search at once with its result — a non-zero exit is not a reason
    /// to try the next candidate. A spawn failure moves to the next
    /// candidate, and on the last candidate ends the search with that
    /// failure's cause.
    pub fn record(&mut self, attempt: Attempt) -> (r: Option<Result<CommandResult, String>>)
        requires
            old(self).wf(),
            old(self).pending(),
        ensures
            final(self).wf(),
            final(self).candidates == old(self).candidates,
            r is Some ==> !final(self).pending(),
            r is None ==> final(self).pending(),
            attempt matches Attempt::Spawned(res) ==> (r == Some(Result::<
                CommandResult,
                String,
            >::Ok(res)) && final(self).next == old(self).candidates@.len()),
            attempt matches Attempt::Failed(cause) ==> (final(self).next == old(self).next + 1 && (
            old(self).next + 1 < old(self).candidates@.len() ==> r is None) && (old(self).next + 1
                == old(self).candidates@.len() ==> r == Some(Result::<CommandResult, String>::Err(
                cause,
            )))),
    {
        let n = self.candidates.len();
        match attempt {
            Attempt::Spawned(res) => {
                self.next = n;
                Some(Ok(res))
            },
            Attempt::Failed(cause) => {
                self.next = self.next + 1;
                if self.next < n {
                    None
                } else {
                    Some(Err(cause))
                }
            },
        }
    }
}

} // verus!
