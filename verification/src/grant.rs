//! The per-process context table: exclusive, fault-safe access to one
//! process's mutable context given its identity.
//!
//! Entry fails distinctly for "process no longer exists" and "process
//! inactive (crashed or revoked)"; the drivers treat both by forgetting
//! any cached ownership of that process and skipping the upcall.

use vstd::prelude::*;

verus! {

/// Why entering a process's context failed.
#[derive(Copy, Clone, Debug, PartialEq, Eq, Structural)]
pub enum ProcessError {
    /// The process does not exist (was torn down).
    NoSuchApp,
    /// The process exists but can no longer run (crashed or revoked).
    InactiveApp,
}

/// One process's entry: its identity, whether it can still run, and its
/// driver context.
pub struct ProcessSlot<T> {
    pub id: u32,
    pub alive: bool,
    pub ctx: T,
}

/// A keyed table of per-process contexts, at most one entry per identity.
pub struct ProcessTable<T> {
    pub procs: Vec<ProcessSlot<T>>,
}

impl<T> ProcessTable<T> {
    /// Identities are unique: no two entries share an id.
    pub open spec fn wf(&self) -> bool {
        forall|i: int, j: int|
            0 <= i < j < self.procs@.len() ==> (#[trigger] self.procs@[i]).id != (
            #[trigger] self.procs@[j]).id
    }

    /// Whether an entry for `id` exists.
    pub open spec fn has(&self, id: u32) -> bool {
        exists|i: int| 0 <= i < self.procs@.len() && (#[trigger] self.procs@[i]).id == id
    }

    /// The index of the entry for `id` (meaningful only when `has(id)`).
    pub open spec fn idx(&self, id: u32) -> int {
        choose|i: int| 0 <= i < self.procs@.len() && (#[trigger] self.procs@[i]).id == id
    }

    /// Whether the process exists and can still run.
    pub open spec fn live(&self, id: u32) -> bool {
        self.has(id) && self.procs@[self.idx(id)].alive
    }

    /// The context of the entry for `id` (meaningful only when `has(id)`).
    pub open spec fn ctx_of(&self, id: u32) -> T {
        self.procs@[self.idx(id)].ctx
    }

    /// Under `wf`, the entry index for an id is the only one bearing it.
    pub proof fn lemma_idx_is(&self, id: u32, i: int)
        requires
            self.wf(),
            0 <= i < self.procs@.len(),
            self.procs@[i].id == id,
        ensures
            self.has(id),
            self.idx(id) == i,
    {
        assert(self.has(id));
        let j = self.idx(id);
        if i < j {
            assert(self.procs@[i].id != self.procs@[j].id);
        } else if j < i {
            assert(self.procs@[j].id != self.procs@[i].id);
        }
    }

    /// Framing for an in-place context update: when only the entry at `i`
    /// changed, and kept its identity and liveness, every table query for
    /// any process is unaffected except the context at `i`.
    pub proof fn lemma_ctx_update(pre: &Self, post: &Self, i: int)
        requires
            pre.wf(),
            0 <= i < pre.procs@.len(),
            post.procs@.len() == pre.procs@.len(),
            post.procs@[i].id == pre.procs@[i].id,
            post.procs@[i].alive == pre.procs@[i].alive,
            forall|j: int| 0 <= j < pre.procs@.len() && j != i ==> post.procs@[j] == pre.procs@[j],
        ensures
            post.wf(),
            forall|p: u32| #[trigger] post.has(p) == pre.has(p),
            forall|p: u32| pre.has(p) ==> #[trigger] post.idx(p) == pre.idx(p),
            forall|p: u32| pre.has(p) ==> #[trigger] post.live(p) == pre.live(p),
            forall|p: u32|
                pre.has(p) && pre.idx(p) != i ==> #[trigger] post.ctx_of(p) == pre.ctx_of(p),
            post.ctx_of(pre.procs@[i].id) == post.procs@[i].ctx,
            post.idx(pre.procs@[i].id) == i,
            others_unchanged(pre, post, pre.procs@[i].id),
            forall|p: u32| #[trigger] post.live(p) == pre.live(p),
    {
        assert forall|a: int, b: int|
            0 <= a < b < post.procs@.len() implies (#[trigger] post.procs@[a]).id != (
        #[trigger] post.procs@[b]).id by {
            assert(post.procs@[a].id == pre.procs@[a].id);
            assert(post.procs@[b].id == pre.procs@[b].id);
        };
        assert forall|p: u32| #[trigger] post.has(p) == pre.has(p) by {
            if pre.has(p) {
                let k = pre.idx(p);
                assert(post.procs@[k].id == p);
            }
            if post.has(p) {
                let k = post.idx(p);
                assert(pre.procs@[k].id == p);
            }
        };
        assert forall|p: u32| pre.has(p) implies #[trigger] post.idx(p) == pre.idx(p) by {
            let k = pre.idx(p);
            assert(post.procs@[k].id == p);
            post.lemma_idx_is(p, k);
        };
        assert forall|p: u32| pre.has(p) implies #[trigger] post.live(p) == pre.live(p) by {
            let k = pre.idx(p);
            assert(post.procs@[k].alive == pre.procs@[k].alive);
        };
        post.lemma_idx_is(pre.procs@[i].id, i);
        assert forall|p: u32| #[trigger] post.live(p) == pre.live(p) by {
            if !pre.has(p) {
                assert(!post.has(p));
            }
        };
        assert forall|p: u32|
            p != pre.procs@[i].id && pre.has(p) implies post.live(p) == pre.live(p) && (
        #[trigger] post.ctx_of(p)) == pre.ctx_of(p) by {
            assert(pre.procs@[pre.idx(p)].id == p);
            assert(pre.idx(p) != i);
        };
    }

    /// Unchanged-for-others is transitive across two table updates.
    pub proof fn lemma_others_unchanged_trans(a: &Self, b: &Self, c: &Self, id: u32)
        requires
            others_unchanged(a, b, id),
            others_unchanged(b, c, id),
        ensures
            others_unchanged(a, c, id),
    {
        assert forall|p: u32| #[trigger] c.has(p) == a.has(p) by {
            assert(b.has(p) == a.has(p));
            assert(c.has(p) == b.has(p));
        };
        assert forall|p: u32|
            p != id && a.has(p) implies c.live(p) == a.live(p) && (#[trigger] c.ctx_of(p))
            == a.ctx_of(p) by {
            assert(b.has(p) == a.has(p));
            assert(b.live(p) == a.live(p) && b.ctx_of(p) == a.ctx_of(p));
            assert(c.live(p) == b.live(p) && c.ctx_of(p) == b.ctx_of(p));
        };
    }

    /// An empty table.
    pub fn new() -> (t: ProcessTable<T>)
        ensures
            t.procs@.len() == 0,
            t.wf(),
    {
        ProcessTable { procs: Vec::new() }
    }

    /// Locate the entry for `id`, failing distinctly when the process does
    /// not exist and when it exists but can no longer run.
    pub fn find(&self, id: u32) -> (r: Result<usize, ProcessError>)
        requires
            self.wf(),
        ensures
            r is Ok <==> self.live(id),
            r matches Ok(i) ==> self.has(id) && self.idx(id) == i && i < self.procs@.len()
                && self.procs@[i as int].id == id && self.procs@[i as int].alive && self.live(id),
            r == Err::<usize, ProcessError>(ProcessError::NoSuchApp) <==> !self.has(id),
            r == Err::<usize, ProcessError>(ProcessError::InactiveApp) <==> self.has(id)
                && !self.live(id),
    {
        let n: usize = self.procs.len();
        let mut i: usize = 0;
        while i < n
            invariant
                self.wf(),
                n == self.procs@.len(),
                i <= n,
                forall|j: int| 0 <= j < i ==> (#[trigger] self.procs@[j]).id != id,
            decreases n - i,
        {
            if self.procs[i].id == id {
                proof {
                    self.lemma_idx_is(id, i as int);
                }
                if self.procs[i].alive {
                    return Ok(i);
                } else {
                    return Err(ProcessError::InactiveApp);
                }
            }
            i = i + 1;
        }
        proof {
            assert(!self.has(id));
        }
        Err(ProcessError::NoSuchApp)
    }

    /// Create the context entry for a new process, zero-initialized by the
    /// caller. Fails when the identity is already present.
    pub fn add_process(&mut self, id: u32, ctx: T) -> (r: Result<(), ProcessError>)
        requires
            old(self).wf(),
        ensures
            final(self).wf(),
            r is Ok <==> !old(self).has(id),
            r is Ok ==> final(self).procs@ == old(self).procs@.push(
                ProcessSlot { id, alive: true, ctx },
            ) && final(self).has(id) && final(self).live(id) && final(self).ctx_of(id) == ctx,
            r is Err ==> *final(self) == *old(self),
            forall|other: u32| other != id ==> final(self).has(other) == old(self).has(other),
    {
        match self.find(id) {
            Err(ProcessError::NoSuchApp) => {
                let ghost pre = self.procs@;
                self.procs.push(ProcessSlot { id, alive: true, ctx });
                proof {
                    assert forall|i: int, j: int|
                        0 <= i < j < self.procs@.len() implies (#[trigger] self.procs@[i]).id != (
                    #[trigger] self.procs@[j]).id by {
                        if j == pre.len() as int {
                            assert(self.procs@[i] == pre[i]);
                        }
                    };
                    self.lemma_idx_is(id, pre.len() as int);
                    assert forall|other: u32| other != id implies self.has(other) == old(self).has(
                        other,
                    ) by {
                        if old(self).has(other) {
                            let i = old(self).idx(other);
                            assert(self.procs@[i].id == other);
                        }
                        if self.has(other) {
                            let i = self.idx(other);
                            assert(i < pre.len());
                            assert(pre[i].id == other);
                        }
                    };
                }
                Ok(())
            },
            _ => Err(ProcessError::InactiveApp),
        }
    }

    /// Mark the process as no longer able to run: from now on entering its
    /// context fails with `InactiveApp`. Models a crash or a revocation.
    pub fn set_inactive(&mut self, id: u32)
        requires
            old(self).wf(),
        ensures
            final(self).wf(),
            final(self).procs@.len() == old(self).procs@.len(),
            forall|other: u32| final(self).has(other) == old(self).has(other),
            old(self).has(id) ==> !final(self).live(id) && final(self).ctx_of(id)
                == old(self).ctx_of(id),
            !old(self).has(id) ==> *final(self) == *old(self),
            forall|other: u32|
                other != id && old(self).has(other) ==> final(self).live(other)
                    == old(self).live(other) && final(self).ctx_of(other)
                    == old(self).ctx_of(other),
    {
        let n: usize = self.procs.len();
        let mut i: usize = 0;
        while i < n
            invariant
                old(self).wf(),
                n == self.procs@.len(),
                i <= n,
                self.procs@.len() == old(self).procs@.len(),
                forall|j: int| 0 <= j < i ==> (#[trigger] old(self).procs@[j]).id != id,
                *self == *old(self),
            decreases n - i,
        {
            if self.procs[i].id == id {
                self.procs[i].alive = false;
                proof {
                    old(self).lemma_idx_is(id, i as int);
                    assert forall|a: int, b: int|
                        0 <= a < b < self.procs@.len() implies (#[trigger] self.procs@[a]).id != (
                    #[trigger] self.procs@[b]).id by {
                        assert(self.procs@[a].id == old(self).procs@[a].id);
                        assert(self.procs@[b].id == old(self).procs@[b].id);
                    };
                    assert forall|other: u32| self.has(other) == old(self).has(other) by {
                        if old(self).has(other) {
                            let k = old(self).idx(other);
                            assert(self.procs@[k].id == other);
                        }
                        if self.has(other) {
                            let k = self.idx(other);
                            assert(old(self).procs@[k].id == other);
                        }
                    };
                    self.lemma_idx_is(id, i as int);
                    assert forall|other: u32|
                        other != id && old(self).has(other) implies self.live(other) == old(
                        self,
                    ).live(other) && self.ctx_of(other) == old(self).ctx_of(other) by {
                        let k = old(self).idx(other);
                        assert(self.procs@[k] == old(self).procs@[k]);
                        self.lemma_idx_is(other, k);
                    };
                }
                return ;
            }
            i = i + 1;
        }
        proof {
            assert(!old(self).has(id));
        }
    }
}

/// Every process but `id` sees the same table before and after.
pub open spec fn others_unchanged<T>(pre: &ProcessTable<T>, post: &ProcessTable<T>, id: u32) -> bool {
    &&& forall|p: u32| #[trigger] post.has(p) == pre.has(p)
    &&& forall|p: u32|
        #![trigger post.live(p)]
        #![trigger post.ctx_of(p)]
        p != id && pre.has(p) ==> post.live(p) == pre.live(p) && post.ctx_of(p) == pre.ctx_of(p)
}

} // verus!
