//! Coordination of the prefix search.
//!
//! One `SearchState` is shared (behind the callers' synchronization) by every
//! worker and by the progress reporter. Workers count attempts locally and
//! flush them into the shared counter in batches; the first worker whose
//! candidate matches claims the termination flag with a single false-to-true
//! transition and only then writes the one result slot. The three transitions
//! are `flush_step`, `claim_step` and `record_step`; the laws below prove
//! that along any run built from them the flag never falls back, the claim
//! succeeds at most once, and the slot, once written, is never overwritten.

use vstd::prelude::*;

verus! {

use vstd::seq_lib::*;
use crate::alphabet::valid_prefix;
use crate::candidate::Candidate;
use crate::candidate::generate_candidate;

/// The winning hand-off: the matching candidate and the shared counter's
/// value at the moment of the match.
pub struct SearchResult {
    pub candidate: Candidate,
    pub iterations: u64,
}

/// The shared state of one search: target prefix, termination flag, attempt
/// counter, and the at-most-once result slot.
pub struct SearchState {
    pub prefix: String,
    pub found: bool,
    pub total_iterations: u64,
    pub result: Option<SearchResult>,
}

/// Addition that stops at the counter's ceiling instead of wrapping.
pub open spec fn sat_add(a: u64, n: u64) -> u64 {
    if a + n <= u64::MAX {
        (a + n) as u64
    } else {
        u64::MAX
    }
}

impl SearchState {
    /// Well-formed: the prefix is usable, and a result, where present, is
    /// only there with the flag set, holds a well-formed candidate, and that
    /// candidate's address starts with the prefix.
    pub open spec fn wf(self) -> bool {
        &&& valid_prefix(self.prefix@)
        &&& (self.result matches Some(r) ==> {
            &&& self.found
            &&& r.candidate.wf()
            &&& self.prefix@.is_prefix_of(r.candidate.address@)
        })
    }

    /// A fresh search: flag down, counter zero, slot empty.
    pub fn new(prefix: String) -> (st: SearchState)
        requires
            valid_prefix(prefix@),
        ensures
            st.wf(),
            st.prefix == prefix,
            !st.found,
            st.total_iterations == 0,
            st.result is None,
    {
        SearchState { prefix, found: false, total_iterations: 0, result: None }
    }

    /// Flushes a worker's local batch into the shared counter. The counter
    /// never decreases; nothing else changes.
    pub fn flush_iterations(&mut self, amount: u64)
        ensures
            flush_step(*old(self), *final(self), amount),
            old(self).wf() ==> final(self).wf(),
    {
        if amount <= u64::MAX - self.total_iterations {
            self.total_iterations = self.total_iterations + amount;
        } else {
            self.total_iterations = u64::MAX;
        }
    }

    /// Claims the termination flag: succeeds exactly when the flag was still
    /// down, and raises it. The slot and the counter are untouched.
    pub fn try_claim(&mut self) -> (claimed: bool)
        ensures
            claim_step(*old(self), *final(self), claimed),
            old(self).wf() ==> final(self).wf(),
            old(self).wf() && claimed ==> final(self).result is None,
    {
        let claimed = !self.found;
        self.found = true;
        claimed
    }

    /// Writes the winning result into the empty slot. Only the worker whose
    /// claim succeeded may call this, exactly once.
    pub fn record_result(&mut self, res: SearchResult)
        requires
            old(self).wf(),
            old(self).found,
            old(self).result is None,
            res.candidate.wf(),
            old(self).prefix@.is_prefix_of(res.candidate.address@),
        ensures
            record_step(*old(self), *final(self), res),
            final(self).wf(),
            final(self).result == Some(res),
    {
        self.result = Some(res);
    }
}

/// A worker flushes `amount` locally counted attempts into the shared
/// counter.
pub open spec fn flush_step(pre: SearchState, post: SearchState, amount: u64) -> bool {
    &&& post.prefix == pre.prefix
    &&& post.found == pre.found
    &&& post.result == pre.result
    &&& post.total_iterations == sat_add(pre.total_iterations, amount)
}

/// A worker tries to claim the termination flag; `claimed` reports whether
/// this call made the single false-to-true transition.
pub open spec fn claim_step(pre: SearchState, post: SearchState, claimed: bool) -> bool {
    &&& claimed == !pre.found
    &&& post.found
    &&& post.prefix == pre.prefix
    &&& post.result == pre.result
    &&& post.total_iterations == pre.total_iterations
}

/// The claiming worker writes the result slot, which must still be empty.
pub open spec fn record_step(pre: SearchState, post: SearchState, res: SearchResult) -> bool {
    &&& pre.found
    &&& pre.result is None
    &&& post.prefix == pre.prefix
    &&& post.found == pre.found
    &&& post.total_iterations == pre.total_iterations
    &&& post.result == Some(res)
}

/// One transition of the shared state, whichever worker takes it.
pub open spec fn search_step(pre: SearchState, post: SearchState) -> bool {
    ||| exists|amount: u64| flush_step(pre, post, amount)
    ||| exists|claimed: bool| claim_step(pre, post, claimed)
    ||| exists|res: SearchResult| record_step(pre, post, res)
}

/// A run of the search: consecutive states are joined by transitions.
pub open spec fn search_run(trace: Seq<SearchState>) -> bool {
    forall|k: int| 0 <= k < trace.len() - 1 ==> #[trigger] search_step(trace[k], trace[k + 1])
}

/// Law (flag stability): along any run, once the termination flag is up it
/// stays up.
pub proof fn lemma_found_monotone(trace: Seq<SearchState>, i: int, j: int)
    requires
        search_run(trace),
        0 <= i <= j < trace.len(),
        trace[i].found,
    ensures
        trace[j].found,
    decreases j - i,
{
    if i < j {
        assert(search_step(trace[i], trace[i + 1]));
        lemma_found_monotone(trace, i + 1, j);
    }
}

/// Law (counter monotone): along any run, the shared iteration counter never
/// decreases.
pub proof fn lemma_counter_monotone(trace: Seq<SearchState>, i: int, j: int)
    requires
        search_run(trace),
        0 <= i <= j < trace.len(),
    ensures
        trace[i].total_iterations <= trace[j].total_iterations,
    decreases j - i,
{
    if i < j {
        assert(search_step(trace[i], trace[i + 1]));
        lemma_counter_monotone(trace, i + 1, j);
    }
}

/// Law (single writer): along any run, the claim succeeds at most once; a
/// second successful false-to-true transition is impossible.
pub proof fn lemma_claim_at_most_once(trace: Seq<SearchState>, i: int, j: int)
    requires
        search_run(trace),
        0 <= i < j < trace.len() - 1,
        claim_step(trace[i], trace[i + 1], true),
    ensures
        !claim_step(trace[j], trace[j + 1], true),
{
    lemma_found_monotone(trace, i + 1, j);
}

/// Law (slot written once): along any run, a result, once recorded, is never
/// replaced or cleared.
pub proof fn lemma_result_never_overwritten(
    trace: Seq<SearchState>,
    i: int,
    j: int,
    res: SearchResult,
)
    requires
        search_run(trace),
        0 <= i <= j < trace.len(),
        trace[i].result == Some(res),
    ensures
        trace[j].result == Some(res),
    decreases j - i,
{
    if i < j {
        assert(search_step(trace[i], trace[i + 1]));
        assert(trace[i + 1].result == Some(res));
        lemma_result_never_overwritten(trace, i + 1, j, res);
    }
}

/// Runs one worker's generate-and-test loop to completion against a fresh
/// shared state: the sequential core of the parallel search. Attempts are
/// counted locally and flushed in batches of `batch`, so the shared counter
/// lags the true count by less than one batch until the final flush. The
/// loop stops at the first match — claiming the flag, flushing the remaining
/// local count, and recording the winning candidate — or when `max_iterations`
/// attempts are exhausted.
pub fn run_search(prefix: &str, with_mnemonic: bool, batch: u64, max_iterations: u64) -> (st:
    SearchState)
    requires
        valid_prefix(prefix@),
        batch >= 1,
    ensures
        st.wf(),
        st.prefix@ == prefix@,
        st.found == (st.result is Some),
        st.result matches Some(res) ==> {
            &&& res.candidate.wf()
            &&& prefix@.is_prefix_of(res.candidate.address@)
            &&& (res.candidate.mnemonic is Some <==> with_mnemonic)
            &&& res.iterations == st.total_iterations
        },
        st.total_iterations <= max_iterations,
        st.result is None ==> st.total_iterations == max_iterations,
{
    let mut st = SearchState::new(prefix.to_owned());
    let mut done: u64 = 0;
    let mut pending: u64 = 0;
    while done < max_iterations
        invariant
            valid_prefix(prefix@),
            batch >= 1,
            st.wf(),
            st.prefix@ == prefix@,
            !st.found,
            st.result is None,
            pending < batch,
            pending <= done <= max_iterations,
            st.total_iterations + pending == done,
        decreases max_iterations - done,
    {
        let c = generate_candidate(with_mnemonic);
        done += 1;
        pending += 1;
        if c.matches_prefix(prefix) {
            let claimed = st.try_claim();
            assert(claimed);
            st.flush_iterations(pending);
            let iterations = st.total_iterations;
            st.record_result(SearchResult { candidate: c, iterations });
            return st;
        }
        if pending == batch {
            st.flush_iterations(pending);
            pending = 0;
        }
    }
    st.flush_iterations(pending);
    st
}

} // verus!
