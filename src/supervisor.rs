use vstd::prelude::*;

verus! {

/// How many workers in `finished` are still running.
pub open spec fn count_running(finished: Seq<bool>) -> nat
    decreases finished.len(),
{
    if finished.len() == 0 {
        0
    } else {
        count_running(finished.drop_last()) + (if finished.last() { 0nat } else { 1nat })
    }
}

proof fn lemma_count_running_zero(finished: Seq<bool>)
    ensures
        (count_running(finished) == 0) == (forall|j: int| 0 <= j < finished.len() ==> #[trigger] finished[j]),
    decreases finished.len(),
{
    if finished.len() > 0 {
        let init = finished.drop_last();
        lemma_count_running_zero(init);
        if count_running(finished) == 0 {
            assert forall|j: int| 0 <= j < finished.len() implies #[trigger] finished[j] by {
                if j < init.len() {
                    assert(init[j] == finished[j]);
                }
            }
        }
        if forall|j: int| 0 <= j < finished.len() ==> #[trigger] finished[j] {
            assert forall|j: int| 0 <= j < init.len() implies #[trigger] init[j] by {
                assert(finished[j]);
            }
            assert(finished[finished.len() - 1]);
        }
    }
}

proof fn lemma_count_running_finish(finished: Seq<bool>, i: int)
    requires
        0 <= i < finished.len(),
        !finished[i],
    ensures
        count_running(finished.update(i, true)) + 1 == count_running(finished),
    decreases finished.len(),
{
    let updated = finished.update(i, true);
    let init = finished.drop_last();
    if i == finished.len() - 1 {
        assert(updated.drop_last() == init);
    } else {
        lemma_count_running_finish(init, i);
        assert(updated.drop_last() == init.update(i, true));
    }
}

/// Spawns one worker per source, joins them all, and holds its own producer
/// handle of the shared frame channel until every worker has been joined.
///
/// Each running worker holds one clone of the producer handle; the channel
/// closes when no handle is left.
pub struct Supervisor {
    finished: Vec<bool>,
    running: usize,
    released: bool,
}

impl Supervisor {
    /// Which workers have terminated, by source index.
    pub closed spec fn finished(&self) -> Seq<bool> {
        self.finished@
    }

    /// Whether the supervisor has dropped its own producer handle.
    pub closed spec fn released(&self) -> bool {
        self.released
    }

    pub closed spec fn wf(&self) -> bool {
        self.running as nat == count_running(self.finished@)
    }

    /// Producer handles alive: one per running worker, plus the
    /// supervisor's own until it releases it.
    pub open spec fn producer_handles(&self) -> nat {
        count_running(self.finished()) + (if self.released() { 0nat } else { 1nat })
    }

    pub open spec fn all_finished(&self) -> bool {
        forall|j: int| 0 <= j < self.finished().len() ==> #[trigger] self.finished()[j]
    }

    /// Starts `n` workers, one per configured source.
    pub fn spawn(n: usize) -> (r: Supervisor)
        ensures
            r.wf(),
            r.finished() == Seq::new(n as nat, |j: int| false),
            !r.released(),
            r.producer_handles() == n + 1,
    {
        let mut finished: Vec<bool> = Vec::with_capacity(n);
        let mut k: usize = 0;
        while k < n
            invariant
                k <= n,
                finished@ == Seq::new(k as nat, |j: int| false),
                count_running(finished@) == k,
            decreases n - k,
        {
            let ghost before = finished@;
            finished.push(false);
            assert(finished@.drop_last() == before);
            k = k + 1;
            assert(finished@ == Seq::new(k as nat, |j: int| false));
        }
        Supervisor { finished, running: n, released: false }
    }

    /// How many workers were spawned.
    pub fn worker_count(&self) -> (r: usize)
        ensures
            r == self.finished().len(),
    {
        self.finished.len()
    }

    /// Records that worker `i` has terminated, by whatever exit path, and
    /// dropped its producer handle.
    pub fn finish_worker(&mut self, i: usize)
        requires
            old(self).wf(),
            i < old(self).finished().len(),
            !old(self).finished()[i as int],
        ensures
            final(self).wf(),
            final(self).finished() == old(self).finished().update(i as int, true),
            final(self).released() == old(self).released(),
            final(self).producer_handles() + 1 == old(self).producer_handles(),
    {
        proof {
            lemma_count_running_finish(self.finished@, i as int);
        }
        self.finished.set(i, true);
        self.running = self.running - 1;
    }

    /// Whether the join is complete: every worker has terminated.
    pub fn all_joined(&self) -> (r: bool)
        requires
            self.wf(),
        ensures
            r == self.all_finished(),
    {
        proof {
            lemma_count_running_zero(self.finished@);
            if self.all_finished() {
                assert forall|j: int| 0 <= j < self.finished@.len() implies #[trigger] self.finished@[j] by {
                    assert(self.finished()[j]);
                }
            }
        }
        self.running == 0
    }

    /// Drops the supervisor's own producer handle once all workers are joined.
    pub fn release(&mut self)
        requires
            old(self).wf(),
            old(self).all_finished(),
            !old(self).released(),
        ensures
            final(self).wf(),
            final(self).finished() == old(self).finished(),
            final(self).released(),
            final(self).producer_handles() == 0,
    {
        proof {
            lemma_count_running_zero(self.finished@);
        }
        self.released = true;
    }

    /// Whether the channel is closed: no producer handle is left.
    pub fn channel_closed(&self) -> (r: bool)
        requires
            self.wf(),
        ensures
            r == (self.producer_handles() == 0),
    {
        self.released && self.running == 0
    }
}

/// Join discipline: the join completes exactly when every spawned worker has
/// terminated, and the channel closes only after that and after the
/// supervisor released its own handle.
pub proof fn lemma_join_waits_for_all(s: Supervisor)
    requires
        s.wf(),
    ensures
        (count_running(s.finished()) == 0) == s.all_finished(),
        s.producer_handles() == 0 ==> s.all_finished() && s.released(),
{
    lemma_count_running_zero(s.finished());
}

/// A worker that never terminates keeps the join from completing and keeps
/// the channel open.
pub proof fn lemma_stalled_worker_blocks_shutdown(s: Supervisor, i: int)
    requires
        s.wf(),
        0 <= i < s.finished().len(),
        !s.finished()[i],
    ensures
        !s.all_finished(),
        s.producer_handles() > 0,
{
    lemma_count_running_zero(s.finished());
}

} // verus!
