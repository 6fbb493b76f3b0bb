//! The item pool: an append-only store of shared candidates split into a
//! bounded reserved/header segment (filled first, never rotated) and an
//! unbounded main segment, with a monotonic claim cursor over the main
//! segment. The embedding program serializes access under its pool lock;
//! every state change and every returned view is specified here.

use vstd::prelude::*;
use std::sync::Arc;

verus! {

/// Relies on `Arc::clone` from std: the clone is a handle to the same value.
#[verifier::external_body]
pub(crate) fn arc_clone<T>(a: &Arc<T>) -> (r: Arc<T>)
    ensures
        r == *a,
{
    Arc::clone(a)
}

/// Initial capacity of the main segment.
const ITEM_POOL_CAPACITY: usize = 1024;

/// How many of `k` incoming items the reserved segment accepts when it still
/// has room for `room` more: all of them, or as many as fit.
pub open spec fn header_share(room: int, k: int) -> int {
    if k <= room {
        k
    } else {
        room
    }
}

/// A copied-out view of pool items: what one claim surfaced, or the whole
/// reserved segment.
pub struct ItemPoolGuard<T> {
    pub items: Vec<T>,
}

/// The store of ingested candidates for one run.
pub struct ItemPool<T> {
    /// The main segment, in producer emission order.
    pool: Vec<Arc<T>>,
    /// Number of main-segment items already claimed by the consumer.
    taken: usize,
    /// The reserved/header segment, pinned to display first.
    reserved_items: Vec<Arc<T>>,
    /// Configured capacity of the reserved segment.
    lines_to_reserve: usize,
}

impl<T> ItemPool<T> {
    /// The main segment's contents.
    pub closed spec fn main_view(&self) -> Seq<Arc<T>> {
        self.pool@
    }

    /// The reserved segment's contents.
    pub closed spec fn reserved_view(&self) -> Seq<Arc<T>> {
        self.reserved_items@
    }

    /// How many main-segment items the consumer has claimed.
    pub closed spec fn claimed(&self) -> nat {
        self.taken as nat
    }

    /// The configured capacity of the reserved segment.
    pub closed spec fn reserve_limit(&self) -> nat {
        self.lines_to_reserve as nat
    }

    /// Total number of stored items, both segments together.
    pub open spec fn total_len(&self) -> nat {
        self.main_view().len() + self.reserved_view().len()
    }

    /// The pool's invariant: the claim cursor never passes the end of the
    /// main segment, the reserved segment never exceeds its configured
    /// capacity, and the total count fits the machine.
    pub open spec fn wf(&self) -> bool {
        &&& self.claimed() <= self.main_view().len()
        &&& self.reserved_view().len() <= self.reserve_limit()
        &&& self.total_len() <= usize::MAX
    }

    pub fn new() -> (r: Self)
        ensures
            r.wf(),
            r.main_view().len() == 0,
            r.reserved_view().len() == 0,
            r.claimed() == 0,
            r.reserve_limit() == 0,
    {
        ItemPool {
            pool: Vec::with_capacity(ITEM_POOL_CAPACITY),
            taken: 0,
            reserved_items: Vec::new(),
            lines_to_reserve: 0,
        }
    }

    /// Configures how many leading items the reserved segment keeps.
    pub fn lines_to_reserve(self, lines_to_reserve: usize) -> (r: Self)
        requires
            self.reserved_view().len() <= lines_to_reserve,
        ensures
            r.main_view() == self.main_view(),
            r.reserved_view() == self.reserved_view(),
            r.claimed() == self.claimed(),
            r.reserve_limit() == lines_to_reserve,
            self.wf() ==> r.wf(),
    {
        ItemPool {
            pool: self.pool,
            taken: self.taken,
            reserved_items: self.reserved_items,
            lines_to_reserve,
        }
    }

    /// Total number of stored items, both segments together.
    pub fn len(&self) -> (r: usize)
        requires
            self.wf(),
        ensures
            r == self.total_len(),
    {
        self.pool.len() + self.reserved_items.len()
    }

    pub fn is_empty(&self) -> (r: bool)
        requires
            self.wf(),
        ensures
            r == (self.total_len() == 0),
    {
        self.len() == 0
    }

    /// How many stored items the consumer has not claimed yet.
    pub fn num_not_taken(&self) -> (r: usize)
        requires
            self.wf(),
        ensures
            r == self.total_len() - self.claimed(),
    {
        (self.pool.len() + self.reserved_items.len()) - self.taken
    }

    /// How many main-segment items the consumer has claimed.
    pub fn num_taken(&self) -> (r: usize)
        ensures
            r == self.claimed(),
    {
        self.taken
    }

    /// Empties both segments and zeroes both counters, for a new run.
    pub fn clear(&mut self)
        ensures
            final(self).main_view().len() == 0,
            final(self).reserved_view().len() == 0,
            final(self).claimed() == 0,
            final(self).reserve_limit() == old(self).reserve_limit(),
            final(self).wf(),
    {
        self.pool.clear();
        self.reserved_items.clear();
        self.taken = 0;
    }

    /// Zeroes the claim cursor without touching the stored items, forcing a
    /// full rematch of already-ingested data.
    pub fn reset(&mut self)
        ensures
            final(self).main_view() == old(self).main_view(),
            final(self).reserved_view() == old(self).reserved_view(),
            final(self).reserve_limit() == old(self).reserve_limit(),
            final(self).claimed() == 0,
            old(self).wf() ==> final(self).wf(),
    {
        self.taken = 0;
    }

    /// Appends a batch: the head of the batch fills the reserved segment's
    /// remaining room, the rest goes to the main segment. Returns the new
    /// total length. The length grows by exactly the batch's size and the
    /// claim cursor does not move.
    pub fn append(&mut self, items: Vec<Arc<T>>) -> (new_len: usize)
        requires
            old(self).wf(),
            old(self).total_len() + items@.len() <= usize::MAX,
        ensures
            final(self).reserved_view() == old(self).reserved_view() + items@.subrange(
                0,
                header_share(old(self).reserve_limit() - old(self).reserved_view().len(), items@.len() as int),
            ),
            final(self).main_view() == old(self).main_view() + items@.subrange(
                header_share(old(self).reserve_limit() - old(self).reserved_view().len(), items@.len() as int),
                items@.len() as int,
            ),
            final(self).claimed() == old(self).claimed(),
            final(self).reserve_limit() == old(self).reserve_limit(),
            final(self).total_len() == old(self).total_len() + items@.len(),
            new_len == final(self).total_len(),
            final(self).wf(),
    {
        let mut items = items;
        let to_reserve = self.lines_to_reserve - self.reserved_items.len();
        if to_reserve > 0 {
            let t = if to_reserve < items.len() {
                to_reserve
            } else {
                items.len()
            };
            let mut tail = items.split_off(t);
            self.reserved_items.append(&mut items);
            self.pool.append(&mut tail);
        } else {
            proof {
                assert(items@.subrange(0, 0) =~= Seq::<Arc<T>>::empty());
                assert(items@.subrange(0, items@.len() as int) =~= items@);
                assert(self.reserved_items@ + Seq::<Arc<T>>::empty() =~= self.reserved_items@);
            }
            self.pool.append(&mut items);
        }
        self.pool.len() + self.reserved_items.len()
    }

    /// Claims the not-yet-taken window of the main segment: moves the claim
    /// cursor to the main segment's current end and returns the window the
    /// cursor passed over. Each main-segment item surfaces from exactly one
    /// claim: no duplicates, no gaps, under single-consumer use.
    pub fn take(&mut self) -> (g: ItemPoolGuard<Arc<T>>)
        requires
            old(self).wf(),
        ensures
            g.items@ == old(self).main_view().subrange(
                old(self).claimed() as int,
                old(self).main_view().len() as int,
            ),
            final(self).claimed() == old(self).main_view().len(),
            final(self).main_view() == old(self).main_view(),
            final(self).reserved_view() == old(self).reserved_view(),
            final(self).reserve_limit() == old(self).reserve_limit(),
            final(self).wf(),
    {
        let mut out: Vec<Arc<T>> = Vec::new();
        let mut i: usize = self.taken;
        while i < self.pool.len()
            invariant
                self.taken <= i <= self.pool@.len(),
                out@ == self.pool@.subrange(self.taken as int, i as int),
            decreases self.pool@.len() - i,
        {
            out.push(arc_clone(&self.pool[i]));
            proof {
                assert(self.pool@.subrange(self.taken as int, i as int).push(self.pool@[i as int])
                    =~= self.pool@.subrange(self.taken as int, i + 1 as int));
            }
            i += 1;
        }
        self.taken = self.pool.len();
        ItemPoolGuard { items: out }
    }

    /// The whole reserved segment, idempotently: header rows are never
    /// removed or reordered, and reading them claims nothing.
    pub fn reserved(&self) -> (g: ItemPoolGuard<Arc<T>>)
        ensures
            g.items@ == self.reserved_view(),
    {
        let mut out: Vec<Arc<T>> = Vec::new();
        let mut i: usize = 0;
        while i < self.reserved_items.len()
            invariant
                i <= self.reserved_items@.len(),
                out@ == self.reserved_items@.subrange(0, i as int),
            decreases self.reserved_items@.len() - i,
        {
            out.push(arc_clone(&self.reserved_items[i]));
            proof {
                assert(self.reserved_items@.subrange(0, i as int).push(self.reserved_items@[i as int])
                    =~= self.reserved_items@.subrange(0, i + 1 as int));
            }
            i += 1;
        }
        proof {
            assert(self.reserved_items@.subrange(0, self.reserved_items@.len() as int)
                =~= self.reserved_items@);
        }
        ItemPoolGuard { items: out }
    }
}

impl<T> Default for ItemPool<T> {
    fn default() -> (r: Self)
        ensures
            r.wf(),
            r.main_view().len() == 0,
            r.reserved_view().len() == 0,
            r.claimed() == 0,
            r.reserve_limit() == 0,
    {
        ItemPool::new()
    }
}

/// With no intervening append, a second claim surfaces nothing: after a
/// claim the cursor stands at the end of the main segment, and the window
/// from there to the end is empty.
pub proof fn lemma_take_after_take<T>(p: ItemPool<T>)
    requires
        p.claimed() == p.main_view().len(),
    ensures
        p.main_view().subrange(p.claimed() as int, p.main_view().len() as int) =~= Seq::<
            Arc<T>,
        >::empty(),
{
}

/// After a reset the claim cursor is zero, so the next claim surfaces the
/// whole main segment again.
pub proof fn lemma_take_after_reset<T>(p: ItemPool<T>)
    requires
        p.claimed() == 0,
    ensures
        p.main_view().subrange(p.claimed() as int, p.main_view().len() as int) =~= p.main_view(),
{
}

} // verus!
