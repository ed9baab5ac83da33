//! The kernel buffer pool: three fixed sample-buffer slots that rotate
//! between "idle in the pool" and "on loan to the hardware".
//!
//! A deposit always lands in the last slot, promoting that slot's previous
//! occupant into an earlier empty slot. This fixed insertion order gives a
//! buffer returned by a hardware callback a single unconditional landing
//! spot before any error path can short-circuit, and guarantees the slot
//! just returned is never immediately re-lent in the same call.

use vstd::prelude::*;

verus! {

/// The driver-owned pool of kernel sample buffers.
///
/// `slot1` is searched first on withdraw (earliest-filled first);
/// `slot3` always receives the newest deposit.
pub struct BufferPool {
    pub slot1: Option<Vec<u16>>,
    pub slot2: Option<Vec<u16>>,
    pub slot3: Option<Vec<u16>>,
}

impl BufferPool {
    /// How many slots currently hold a buffer.
    pub open spec fn stored(&self) -> int {
        (if self.slot1 is Some {
            1int
        } else {
            0int
        }) + (if self.slot2 is Some {
            1int
        } else {
            0int
        }) + (if self.slot3 is Some {
            1int
        } else {
            0int
        })
    }

    /// The sample view of the buffer a withdraw would return first
    /// (meaningful only when at least one buffer is stored).
    pub open spec fn first_stored(&self) -> Seq<u16> {
        if self.slot1 is Some {
            self.slot1->0@
        } else if self.slot2 is Some {
            self.slot2->0@
        } else {
            self.slot3->0@
        }
    }

    /// The sample view of the buffer a second withdraw would return
    /// (meaningful only when at least two buffers are stored).
    pub open spec fn second_stored(&self) -> Seq<u16> {
        if self.slot1 is Some {
            if self.slot2 is Some {
                self.slot2->0@
            } else {
                self.slot3->0@
            }
        } else {
            self.slot3->0@
        }
    }

    /// The pool after a deposit of `buf`, at the specification level:
    /// the buffer lands in the last slot; that slot's previous occupant
    /// is promoted into the second slot if empty, else into the first.
    pub open spec fn spec_deposit(self, buf: Vec<u16>) -> BufferPool {
        if self.slot3 is None {
            BufferPool { slot1: self.slot1, slot2: self.slot2, slot3: Some(buf) }
        } else if self.slot2 is None {
            BufferPool { slot1: self.slot1, slot2: self.slot3, slot3: Some(buf) }
        } else {
            BufferPool { slot1: self.slot3, slot2: self.slot2, slot3: Some(buf) }
        }
    }

    /// A pool holding the three kernel buffers, all idle.
    pub fn new(buf1: Vec<u16>, buf2: Vec<u16>, buf3: Vec<u16>) -> (pool: BufferPool)
        ensures
            pool.slot1 == Some(buf1),
            pool.slot2 == Some(buf2),
            pool.slot3 == Some(buf3),
            pool.stored() == 3,
    {
        BufferPool { slot1: Some(buf1), slot2: Some(buf2), slot3: Some(buf3) }
    }

    /// Count of stored buffers, as a run-time value.
    pub fn count(&self) -> (n: usize)
        ensures
            n == self.stored(),
    {
        let mut n: usize = 0;
        if self.slot1.is_some() {
            n = n + 1;
        }
        if self.slot2.is_some() {
            n = n + 1;
        }
        if self.slot3.is_some() {
            n = n + 1;
        }
        n
    }

    /// Store a buffer we have regained ownership of.
    ///
    /// The buffer always lands in `slot3`; a previous occupant of `slot3`
    /// is promoted into `slot2` if empty, else into `slot1`.
    pub fn deposit(&mut self, buf: Vec<u16>)
        ensures
            *final(self) == old(self).spec_deposit(buf),
            final(self).slot3 == Some(buf),
            old(self).slot3 is None ==> final(self).slot1 == old(self).slot1
                && final(self).slot2 == old(self).slot2,
            old(self).slot3 is Some && old(self).slot2 is None ==> final(self).slot2 == old(self).slot3
                && final(self).slot1 == old(self).slot1,
            old(self).slot3 is Some && old(self).slot2 is Some ==> final(self).slot1 == old(self).slot3
                && final(self).slot2 == old(self).slot2,
            old(self).stored() < 3 ==> final(self).stored() == old(self).stored() + 1,
            old(self).stored() == 3 ==> final(self).stored() == 3,
    {
        if self.slot3.is_none() {
            self.slot3 = Some(buf);
        } else {
            let temp = self.slot3.take();
            self.slot3 = Some(buf);
            if self.slot2.is_none() {
                self.slot2 = temp;
            } else {
                self.slot1 = temp;
            }
        }
    }

    /// Take one stored buffer out of the pool, earliest-filled slot first,
    /// leaving the other slots untouched. Returns `None` when the pool is
    /// empty.
    pub fn withdraw(&mut self) -> (r: Option<Vec<u16>>)
        ensures
            r is None <==> old(self).stored() == 0,
            r is None ==> *final(self) == *old(self),
            r is Some ==> final(self).stored() == old(self).stored() - 1,
            old(self).slot1 is Some ==> r == old(self).slot1 && final(self).slot1 is None
                && final(self).slot2 == old(self).slot2 && final(self).slot3 == old(self).slot3,
            old(self).slot1 is None && old(self).slot2 is Some ==> r == old(self).slot2
                && final(self).slot2 is None && final(self).slot1 is None
                && final(self).slot3 == old(self).slot3,
            old(self).slot1 is None && old(self).slot2 is None && old(self).slot3 is Some ==> r
                == old(self).slot3 && final(self).slot3 is None && final(self).slot1 is None
                && final(self).slot2 is None,
    {
        if self.slot1.is_some() {
            self.slot1.take()
        } else if self.slot2.is_some() {
            self.slot2.take()
        } else if self.slot3.is_some() {
            self.slot3.take()
        } else {
            None
        }
    }
}

/// Law: kernel buffer slots are conserved. If the buffers stored in the
/// pool and the buffers on loan to the hardware together account for all
/// three kernel buffers, they still do after a deposit that folds one
/// on-loan buffer back in, and after a withdraw that puts one more buffer
/// on loan. Since every pool starts full with nothing on loan, the sum is
/// three at every point where no call is in progress.
pub proof fn lemma_slot_conservation(
    stored_pre: int,
    loaned_pre: int,
    stored_post: int,
    loaned_post: int,
)
    requires
        stored_pre + loaned_pre == 3,
        (loaned_pre > 0 && stored_post == stored_pre + 1 && loaned_post == loaned_pre - 1) || (
        stored_pre > 0 && stored_post == stored_pre - 1 && loaned_post == loaned_pre + 1),
    ensures
        stored_post + loaned_post == 3,
{
}

} // verus!
