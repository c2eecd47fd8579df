//! The bounded history of correlation scores kept for display.
//!
//! The processing thread pushes one score per chunk; a presentation thread
//! periodically snapshots the contents.  The history has a fixed retention:
//! each push evicts the oldest entry, so the buffer always holds exactly the
//! most recent `retention` scores (padded with zero scores at the start).

use vstd::prelude::*;
use vstd::rwlock::RwLock;

use crate::dsp::CorrelationScore;

verus! {

/// A zero score: nothing correlates, denominator one.
pub open spec fn spec_zero_score() -> CorrelationScore {
    CorrelationScore { dot: 0, norm: 1 }
}

/// The history contents after the scores have been pushed, in order, into a
/// history that starts as `h0`.
pub open spec fn history_after(h0: Seq<CorrelationScore>, pushed: Seq<CorrelationScore>) -> Seq<
    CorrelationScore,
>
    decreases pushed.len(),
{
    if pushed.len() == 0 {
        h0
    } else {
        history_after(h0, pushed.drop_last()).skip(1).push(pushed.last())
    }
}

/// However many scores are pushed, the history keeps its length and holds
/// exactly the last `h0.len()` of everything pushed, oldest first (still
/// preceded by a tail of the initial contents while fewer than `h0.len()`
/// scores have arrived).
pub proof fn lemma_history_holds_last_scores(
    h0: Seq<CorrelationScore>,
    pushed: Seq<CorrelationScore>,
)
    requires
        h0.len() > 0,
    ensures
        history_after(h0, pushed).len() == h0.len(),
        history_after(h0, pushed) == (h0 + pushed).skip(pushed.len() as int),
    decreases pushed.len(),
{
    if pushed.len() == 0 {
        assert(history_after(h0, pushed) =~= (h0 + pushed).skip(pushed.len() as int));
    } else {
        lemma_history_holds_last_scores(h0, pushed.drop_last());
        assert(history_after(h0, pushed) =~= (h0 + pushed).skip(pushed.len() as int));
    }
}

/// The bounded, fixed-length buffer of the most recent correlation scores.
pub struct CorrelationHistory {
    scores: std::collections::VecDeque<CorrelationScore>,
}

impl View for CorrelationHistory {
    type V = Seq<CorrelationScore>;

    closed spec fn view(&self) -> Seq<CorrelationScore> {
        self.scores@
    }
}

impl CorrelationHistory {
    /// A history that retains `retention` scores, initially all zero.
    pub fn new(retention: usize) -> (h: CorrelationHistory)
        requires
            retention > 0,
        ensures
            h@ == Seq::new(retention as nat, |i: int| spec_zero_score()),
    {
        let mut scores = std::collections::VecDeque::<CorrelationScore>::with_capacity(retention);
        let mut i: usize = 0;
        while i < retention
            invariant
                i <= retention,
                scores@ == Seq::new(i as nat, |j: int| spec_zero_score()),
            decreases retention - i,
        {
            scores.push_back(CorrelationScore { dot: 0, norm: 1 });
            proof {
                assert(scores@ =~= Seq::new((i + 1) as nat, |j: int| spec_zero_score()));
            }
            i = i + 1;
        }
        CorrelationHistory { scores }
    }

    /// The fixed retention.
    pub fn len(&self) -> (n: usize)
        ensures
            n == self@.len(),
    {
        self.scores.len()
    }

    /// Records one more score, evicting the oldest one.
    pub fn push(&mut self, score: CorrelationScore)
        requires
            old(self)@.len() > 0,
        ensures
            final(self)@ == old(self)@.skip(1).push(score),
            final(self)@.len() == old(self)@.len(),
    {
        let _ = self.scores.pop_front();
        self.scores.push_back(score);
        proof {
            assert(self.scores@ =~= old(self)@.skip(1).push(score));
        }
    }

    /// The retained scores in chronological order, oldest first.
    pub fn snapshot(&self) -> (r: Vec<CorrelationScore>)
        ensures
            r@ == self@,
    {
        let n = self.scores.len();
        let mut r: Vec<CorrelationScore> = Vec::with_capacity(n);
        let mut i: usize = 0;
        while i < n
            invariant
                i <= n,
                n == self@.len(),
                r@ == self@.take(i as int),
            decreases n - i,
        {
            r.push(self.scores[i]);
            proof {
                assert(r@ =~= self@.take(i + 1));
            }
            i = i + 1;
        }
        proof {
            assert(r@ =~= self@);
        }
        r
    }
}

/// The history as the threads share it: one reader-writer lock around the
/// buffer, with the lock's invariant guaranteeing that every value it ever
/// stores is a complete history of the configured retention.
///
/// The processing thread pushes through `push`; the presentation thread reads
/// through `snapshot`.  Neither can ever observe or publish a torn state: the
/// lock hands out the buffer only between complete operations, and the
/// invariant proves that what is handed out always holds exactly `retention`
/// scores.
pub struct SharedHistory {
    lock: RwLock<CorrelationHistory, spec_fn(CorrelationHistory) -> bool>,
    retention: Ghost<usize>,
}

impl SharedHistory {
    /// Every value the lock stores is a history of exactly the configured
    /// retention.
    pub closed spec fn wf(self) -> bool {
        &&& self.spec_retention() > 0
        &&& forall|v: CorrelationHistory|
            self.lock.inv(v) == (v@.len() == self.spec_retention())
    }

    /// The fixed retention.
    pub closed spec fn spec_retention(self) -> usize {
        self.retention@
    }

    /// A shared history that retains `retention` scores, initially all zero.
    pub fn new(retention: usize) -> (s: SharedHistory)
        requires
            retention > 0,
        ensures
            s.wf(),
            s.spec_retention() == retention,
    {
        let history = CorrelationHistory::new(retention);
        let lock = RwLock::new(
            history,
            Ghost(|v: CorrelationHistory| v@.len() == retention),
        );
        SharedHistory { lock, retention: Ghost(retention) }
    }

    /// Records one more score.  Other threads may interleave their own
    /// pushes, so nothing more is promised about the contents; the lock's
    /// invariant still guarantees the buffer stays complete.
    pub fn push(&self, score: CorrelationScore)
        requires
            self.wf(),
    {
        let (mut history, write_handle) = self.lock.acquire_write();
        history.push(score);
        write_handle.release_write(history);
    }

    /// A consistent snapshot of the retained scores, oldest first: always
    /// exactly `retention` of them, never a partially updated state.
    pub fn snapshot(&self) -> (r: Vec<CorrelationScore>)
        requires
            self.wf(),
        ensures
            r@.len() == self.spec_retention(),
    {
        let read_handle = self.lock.acquire_read();
        let snapshot = read_handle.borrow().snapshot();
        read_handle.release_read();
        snapshot
    }
}

} // verus!
