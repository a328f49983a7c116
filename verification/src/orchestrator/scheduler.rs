//! Proactivity scheduler: the queue of follow-up messages the model deferred
//! for later delivery.
//!
//! The queue itself is plain data; writing it to `deferred_queue.json` is the
//! caller's job. Every mutating method reports whether the queue changed so
//! the caller knows when to persist (`add` always changes it).

use vstd::prelude::*;

use crate::monitor::{DeferredMessage, SchedulerState};

verus! {

/// File name of the persisted queue, stored beside `config.json`.
pub const QUEUE_FILE_NAME: &'static str = "deferred_queue.json";

/// Two deferred messages occupy the same slot when message and trigger agree.
pub open spec fn same_slot(a: DeferredMessage, b: DeferredMessage) -> bool {
    a.message@ == b.message@ && a.trigger@ == b.trigger@
}

/// The queue after adding `msg`: every item in the same slot is replaced.
pub open spec fn queue_after_add(q: Seq<DeferredMessage>, msg: DeferredMessage) -> Seq<
    DeferredMessage,
> {
    q.filter(|m: DeferredMessage| !same_slot(m, msg)).push(msg)
}

/// The queue after cancelling `id`.
pub open spec fn queue_after_cancel(q: Seq<DeferredMessage>, id: Seq<char>) -> Seq<
    DeferredMessage,
> {
    q.filter(|m: DeferredMessage| m.id@ != id)
}

/// Items due at `now` (fire time not after `now`), in queue order.
pub open spec fn due_at(q: Seq<DeferredMessage>, now: i64) -> Seq<DeferredMessage> {
    q.filter(|m: DeferredMessage| m.fire_at <= now)
}

/// Items still pending after `now`, in queue order.
pub open spec fn not_due_at(q: Seq<DeferredMessage>, now: i64) -> Seq<DeferredMessage> {
    q.filter(|m: DeferredMessage| m.fire_at > now)
}

/// Index of the first item whose id is `id`, if any.
pub open spec fn first_with_id(q: Seq<DeferredMessage>, id: Seq<char>) -> Option<int>
    decreases q.len(),
{
    if q.len() == 0 {
        None
    } else if q[0].id@ == id {
        Some(0)
    } else {
        match first_with_id(q.drop_first(), id) {
            Some(k) => Some(k + 1),
            None => None,
        }
    }
}

pub proof fn lemma_first_with_id(q: Seq<DeferredMessage>, id: Seq<char>)
    ensures
        match first_with_id(q, id) {
            Some(k) => 0 <= k < q.len() && q[k].id@ == id && forall|j: int|
                0 <= j < k ==> q[j].id@ != id,
            None => forall|j: int| 0 <= j < q.len() ==> q[j].id@ != id,
        },
    decreases q.len(),
{
    if q.len() > 0 && q[0].id@ != id {
        lemma_first_with_id(q.drop_first(), id);
        assert forall|j: int| 0 < j < q.len() implies q[j] == q.drop_first()[j - 1] by {}
    }
}

/// Pending follow-ups plus the most recently fired one.
pub struct ProactivityScheduler {
    pending: Vec<DeferredMessage>,
    last_fired: Option<DeferredMessage>,
    persist_path: Option<String>,
}

impl ProactivityScheduler {
    /// Pending queue, in insertion order.
    pub closed spec fn pending_spec(&self) -> Seq<DeferredMessage> {
        self.pending@
    }

    /// Most recently fired message.
    pub closed spec fn last_fired_spec(&self) -> Option<DeferredMessage> {
        self.last_fired
    }

    /// Where the caller persists the queue, if anywhere.
    pub closed spec fn persist_path_spec(&self) -> Option<Seq<char>> {
        match self.persist_path {
            Some(p) => Some(p@),
            None => None,
        }
    }

    /// Empty scheduler that persists nothing.
    pub fn new() -> (r: Self)
        ensures
            r.pending_spec() == Seq::<DeferredMessage>::empty(),
            r.last_fired_spec() is None,
            r.persist_path_spec() is None,
    {
        ProactivityScheduler { pending: Vec::new(), last_fired: None, persist_path: None }
    }

    /// Empty scheduler whose mutations the caller persists to `path`.
    pub fn with_persist(path: String) -> (r: Self)
        ensures
            r.pending_spec() == Seq::<DeferredMessage>::empty(),
            r.last_fired_spec() is None,
            r.persist_path_spec() == Some(path@),
    {
        ProactivityScheduler { pending: Vec::new(), last_fired: None, persist_path: Some(path) }
    }

    /// Scheduler holding a queue read back from `path` (nothing fired yet).
    pub fn from_loaded(pending: Vec<DeferredMessage>, path: String) -> (r: Self)
        ensures
            r.pending_spec() == pending@,
            r.last_fired_spec() is None,
            r.persist_path_spec() == Some(path@),
    {
        ProactivityScheduler { pending, last_fired: None, persist_path: Some(path) }
    }

    /// The persistence path, if the scheduler has one.
    pub fn persist_path(&self) -> (r: Option<String>)
        ensures
            match r {
                Some(p) => self.persist_path_spec() == Some(p@),
                None => self.persist_path_spec() is None,
            },
    {
        match &self.persist_path {
            Some(p) => Some(p.clone()),
            None => None,
        }
    }

    /// Canonical queue path: `deferred_queue.json` in the directory of `config_path`
    /// (the current directory `.` when the path has no parent).
    pub fn queue_path_beside_config(config_path: &str) -> (r: String)
        ensures
            r@ == crate::paths::join(crate::paths::parent_or_dot(config_path@), QUEUE_FILE_NAME@),
    {
        let parent = crate::paths::parent_or_dot_of(config_path);
        crate::paths::join_str(&parent, QUEUE_FILE_NAME)
    }

    /// Adds `msg`, replacing every pending item with the same message and trigger.
    pub fn add(&mut self, msg: DeferredMessage)
        ensures
            final(self).pending_spec() == queue_after_add(old(self).pending_spec(), msg),
            final(self).last_fired_spec() == old(self).last_fired_spec(),
            final(self).persist_path_spec() == old(self).persist_path_spec(),
    {
        let ghost q = self.pending@;
        let mut kept: Vec<DeferredMessage> = Vec::new();
        let mut i: usize = 0;
        while i < self.pending.len()
            invariant
                self.pending@ == q,
                i <= q.len(),
                kept@ == q.take(i as int).filter(|m: DeferredMessage| !same_slot(m, msg)),
            decreases q.len() - i,
        {
            proof {
                reveal_with_fuel(Seq::<_>::filter, 1);
                assert(q.take(i + 1).drop_last() =~= q.take(i as int));
            }
            let m = &self.pending[i];
            let same = crate::text::str_eq(m.message.as_str(), msg.message.as_str())
                && crate::text::str_eq(m.trigger.as_str(), msg.trigger.as_str());
            if !same {
                kept.push(m.duplicate());
            }
            i = i + 1;
        }
        assert(q.take(q.len() as int) =~= q);
        kept.push(msg);
        self.pending = kept;
    }

    /// Removes every pending item with id `id`; true when something was removed.
    pub fn cancel(&mut self, id: &str) -> (removed: bool)
        ensures
            final(self).pending_spec() == queue_after_cancel(old(self).pending_spec(), id@),
            removed == exists|j: int|
                0 <= j < old(self).pending_spec().len() && (#[trigger] old(
                    self,
                ).pending_spec()[j]).id@ == id@,
            removed <==> final(self).pending_spec().len() < old(self).pending_spec().len(),
            final(self).last_fired_spec() == old(self).last_fired_spec(),
            final(self).persist_path_spec() == old(self).persist_path_spec(),
    {
        let ghost q = self.pending@;
        let mut kept: Vec<DeferredMessage> = Vec::new();
        let mut found = false;
        let mut i: usize = 0;
        while i < self.pending.len()
            invariant
                self.pending@ == q,
                i <= q.len(),
                kept@ == q.take(i as int).filter(|m: DeferredMessage| m.id@ != id@),
                found == exists|j: int| 0 <= j < i && (#[trigger] q[j]).id@ == id@,
                kept@.len() + (if found {
                    1int
                } else {
                    0int
                }) <= i,
                !found ==> kept@.len() == i,
            decreases q.len() - i,
        {
            proof {
                reveal_with_fuel(Seq::<_>::filter, 1);
                assert(q.take(i + 1).drop_last() =~= q.take(i as int));
            }
            let m = &self.pending[i];
            if crate::text::str_eq(m.id.as_str(), id) {
                found = true;
            } else {
                kept.push(m.duplicate());
            }
            i = i + 1;
        }
        assert(q.take(q.len() as int) =~= q);
        self.pending = kept;
        found
    }

    /// Fires the first pending item with id `id`: removes it, records it as
    /// last fired and returns it. `None` (queue unchanged) when no item has that id.
    pub fn fire_now(&mut self, id: &str) -> (r: Option<DeferredMessage>)
        ensures
            match first_with_id(old(self).pending_spec(), id@) {
                Some(k) => r == Some(old(self).pending_spec()[k]) && final(self).pending_spec()
                    == old(self).pending_spec().remove(k) && final(self).last_fired_spec() == r,
                None => r is None && final(self).pending_spec() == old(self).pending_spec()
                    && final(self).last_fired_spec() == old(self).last_fired_spec(),
            },
            final(self).persist_path_spec() == old(self).persist_path_spec(),
    {
        proof {
            lemma_first_with_id(self.pending@, id@);
        }
        let mut i: usize = 0;
        while i < self.pending.len()
            invariant
                *self == *old(self),
                i <= self.pending@.len(),
                forall|j: int| 0 <= j < i ==> self.pending@[j].id@ != id@,
            decreases self.pending@.len() - i,
        {
            if crate::text::str_eq(self.pending[i].id.as_str(), id) {
                assert(first_with_id(self.pending@, id@) == Some(i as int)) by {
                    lemma_first_with_id(self.pending@, id@);
                    match first_with_id(self.pending@, id@) {
                        Some(k) => {
                            assert(k == i as int);
                        },
                        None => {},
                    }
                }
                let msg = self.pending.remove(i);
                self.last_fired = Some(msg.duplicate());
                return Some(msg);
            }
            i = i + 1;
        }
        None
    }

    /// Removes and returns every item due at `now`, in queue order; the last of
    /// them becomes the last fired message.
    pub fn drain_due_at(&mut self, now: i64) -> (due: Vec<DeferredMessage>)
        ensures
            due@ == due_at(old(self).pending_spec(), now),
            final(self).pending_spec() == not_due_at(old(self).pending_spec(), now),
            final(self).last_fired_spec() == if due@.len() > 0 {
                Some(due@.last())
            } else {
                old(self).last_fired_spec()
            },
            final(self).persist_path_spec() == old(self).persist_path_spec(),
    {
        let ghost q = self.pending@;
        let mut due: Vec<DeferredMessage> = Vec::new();
        let mut kept: Vec<DeferredMessage> = Vec::new();
        let mut i: usize = 0;
        while i < self.pending.len()
            invariant
                self.pending@ == q,
                i <= q.len(),
                due@ == q.take(i as int).filter(|m: DeferredMessage| m.fire_at <= now),
                kept@ == q.take(i as int).filter(|m: DeferredMessage| m.fire_at > now),
            decreases q.len() - i,
        {
            proof {
                reveal_with_fuel(Seq::<_>::filter, 1);
                assert(q.take(i + 1).drop_last() =~= q.take(i as int));
            }
            let m = &self.pending[i];
            if m.fire_at <= now {
                due.push(m.duplicate());
            } else {
                kept.push(m.duplicate());
            }
            i = i + 1;
        }
        assert(q.take(q.len() as int) =~= q);
        self.pending = kept;
        if due.len() > 0 {
            let last = due[due.len() - 1].duplicate();
            self.last_fired = Some(last);
        }
        due
    }

    /// Removes and returns every item due now (per the wall clock).
    pub fn drain_due(&mut self) -> (due: Vec<DeferredMessage>)
        ensures
            exists|now: i64|
                due@ == due_at(old(self).pending_spec(), now) && final(self).pending_spec()
                    == not_due_at(old(self).pending_spec(), now),
            final(self).last_fired_spec() == if due@.len() > 0 {
                Some(due@.last())
            } else {
                old(self).last_fired_spec()
            },
            final(self).persist_path_spec() == old(self).persist_path_spec(),
    {
        let now = crate::clock::now_millis();
        self.drain_due_at(now)
    }

    /// Snapshot of the pending queue and the last fired message.
    pub fn state(&self) -> (r: SchedulerState)
        ensures
            r.pending@ == self.pending_spec(),
            r.last_fired == self.last_fired_spec(),
    {
        let mut pending: Vec<DeferredMessage> = Vec::new();
        let mut i: usize = 0;
        while i < self.pending.len()
            invariant
                i <= self.pending@.len(),
                pending@ == self.pending@.take(i as int),
            decreases self.pending@.len() - i,
        {
            pending.push(self.pending[i].duplicate());
            i = i + 1;
            assert(pending@ =~= self.pending@.take(i as int));
        }
        assert(self.pending@.take(self.pending@.len() as int) =~= self.pending@);
        let last_fired = match &self.last_fired {
            Some(m) => Some(m.duplicate()),
            None => None,
        };
        SchedulerState { pending, last_fired }
    }
}

} // verus!

verus! {

/// No two items of `q` occupy the same slot.
pub open spec fn slots_unique(q: Seq<DeferredMessage>) -> bool {
    forall|i: int, j: int| 0 <= i < j < q.len() ==> !same_slot(#[trigger] q[i], #[trigger] q[j])
}

proof fn lemma_filter_from(q: Seq<DeferredMessage>, p: spec_fn(DeferredMessage) -> bool)
    ensures
        forall|i: int|
            0 <= i < q.filter(p).len() ==> p(#[trigger] q.filter(p)[i]) && exists|j: int|
                0 <= j < q.len() && q[j] == q.filter(p)[i],
        forall|j: int| 0 <= j < q.len() && p(q[j]) ==> #[trigger] q.filter(p).contains(q[j]),
        q.filter(p).len() <= q.len(),
    decreases q.len(),
{
    reveal_with_fuel(Seq::<_>::filter, 1);
    if q.len() > 0 {
        let d = q.drop_last();
        lemma_filter_from(d, p);
        let f = q.filter(p);
        assert forall|i: int| 0 <= i < f.len() implies p(#[trigger] f[i]) && exists|j: int|
            0 <= j < q.len() && q[j] == f[i] by {
            if i < d.filter(p).len() {
                assert(f[i] == d.filter(p)[i]);
                let j = choose|j: int| 0 <= j < d.len() && d[j] == d.filter(p)[i];
                assert(q[j] == f[i]);
            } else {
                assert(f[i] == q.last());
                assert(q[q.len() - 1] == f[i]);
            }
        }
        assert forall|j: int| 0 <= j < q.len() && p(q[j]) implies #[trigger] f.contains(q[j]) by {
            if j == q.len() - 1 {
                assert(f[f.len() - 1] == q[j]);
            } else {
                assert(d[j] == q[j]);
                assert(d.filter(p).contains(d[j]));
                let k = choose|k: int| 0 <= k < d.filter(p).len() && d.filter(p)[k] == d[j];
                assert(f[k] == q[j]);
            }
        }
    }
}

proof fn lemma_filter_partition(q: Seq<DeferredMessage>, now: i64)
    ensures
        due_at(q, now).len() + not_due_at(q, now).len() == q.len(),
    decreases q.len(),
{
    reveal_with_fuel(Seq::<_>::filter, 1);
    if q.len() > 0 {
        lemma_filter_partition(q.drop_last(), now);
    }
}

proof fn lemma_filter_idempotent(q: Seq<DeferredMessage>, p: spec_fn(DeferredMessage) -> bool)
    ensures
        q.filter(p).filter(p) == q.filter(p),
    decreases q.len(),
{
    reveal_with_fuel(Seq::<_>::filter, 1);
    if q.len() > 0 {
        let d = q.drop_last();
        lemma_filter_idempotent(d, p);
        if p(q.last()) {
            assert(q.filter(p) == d.filter(p).push(q.last()));
            assert(q.filter(p).drop_last() =~= d.filter(p));
        }
    }
}

/// Draining at `now` splits the queue in two: every item is either delivered
/// (fire time not after `now`) or kept (fire time after `now`), none is lost or
/// duplicated in count, and draining the kept items again at the same instant
/// delivers nothing and keeps them all.
pub proof fn law_drain_partitions(q: Seq<DeferredMessage>, now: i64)
    ensures
        due_at(q, now).len() + not_due_at(q, now).len() == q.len(),
        forall|i: int| 0 <= i < due_at(q, now).len() ==> (#[trigger] due_at(q, now)[i]).fire_at <= now,
        forall|i: int|
            0 <= i < not_due_at(q, now).len() ==> (#[trigger] not_due_at(q, now)[i]).fire_at > now,
        forall|i: int|
            0 <= i < q.len() ==> if q[i].fire_at <= now {
                due_at(q, now).contains(#[trigger] q[i])
            } else {
                not_due_at(q, now).contains(q[i])
            },
        due_at(not_due_at(q, now), now).len() == 0,
        not_due_at(not_due_at(q, now), now) == not_due_at(q, now),
{
    let pd = |m: DeferredMessage| m.fire_at <= now;
    let pk = |m: DeferredMessage| m.fire_at > now;
    lemma_filter_partition(q, now);
    lemma_filter_from(q, pd);
    lemma_filter_from(q, pk);
    lemma_filter_idempotent(q, pk);
    let k = not_due_at(q, now);
    lemma_filter_partition(k, now);
    assert(not_due_at(k, now) == k);
}

/// Adding a message leaves it last in the queue as the only item of its slot,
/// keeps every item of another slot, and keeps the queue free of two items in
/// one slot when it was free of them before.
pub proof fn law_add_replaces_slot(q: Seq<DeferredMessage>, msg: DeferredMessage)
    ensures
        queue_after_add(q, msg).len() >= 1,
        queue_after_add(q, msg).last() == msg,
        forall|i: int|
            0 <= i < queue_after_add(q, msg).len() - 1 ==> !same_slot(
                #[trigger] queue_after_add(q, msg)[i],
                msg,
            ),
        forall|i: int|
            0 <= i < q.len() && !same_slot(q[i], msg) ==> queue_after_add(q, msg).contains(
                #[trigger] q[i],
            ),
        slots_unique(q) ==> slots_unique(queue_after_add(q, msg)),
{
    let p = |m: DeferredMessage| !same_slot(m, msg);
    let f = q.filter(p);
    lemma_filter_from(q, p);
    let r = queue_after_add(q, msg);
    assert(r == f.push(msg));
    assert forall|i: int| 0 <= i < q.len() && !same_slot(q[i], msg) implies r.contains(
        #[trigger] q[i],
    ) by {
        assert(f.contains(q[i]));
        let k = choose|k: int| 0 <= k < f.len() && f[k] == q[i];
        assert(r[k] == q[i]);
    }
    if slots_unique(q) {
        assert forall|i: int, j: int| 0 <= i < j < r.len() implies !same_slot(
            #[trigger] r[i],
            #[trigger] r[j],
        ) by {
            if j == r.len() - 1 {
                assert(r[i] == f[i]);
                assert(p(f[i]));
            } else {
                assert(r[i] == f[i] && r[j] == f[j]);
                lemma_filter_positions(q, p);
                let a = choose|a: int, b: int|
                    0 <= a < b < q.len() && q[a] == f[i] && q[b] == f[j];
            }
        }
    }
}

proof fn lemma_filter_positions(q: Seq<DeferredMessage>, p: spec_fn(DeferredMessage) -> bool)
    ensures
        forall|i: int, j: int|
            0 <= i < j < q.filter(p).len() ==> exists|a: int, b: int|
                0 <= a < b < q.len() && q[a] == #[trigger] q.filter(p)[i] && q[b]
                    == #[trigger] q.filter(p)[j],
    decreases q.len(),
{
    reveal_with_fuel(Seq::<_>::filter, 1);
    if q.len() > 0 {
        let d = q.drop_last();
        lemma_filter_positions(d, p);
        lemma_filter_from(d, p);
        let f = q.filter(p);
        assert forall|i: int, j: int| 0 <= i < j < f.len() implies exists|a: int, b: int|
            0 <= a < b < q.len() && q[a] == #[trigger] f[i] && q[b] == #[trigger] f[j] by {
            if j < d.filter(p).len() {
                assert(f[i] == d.filter(p)[i] && f[j] == d.filter(p)[j]);
                let (a, b) = choose|a: int, b: int|
                    0 <= a < b < d.len() && d[a] == d.filter(p)[i] && d[b] == d.filter(p)[j];
                assert(q[a] == f[i] && q[b] == f[j]);
            } else {
                assert(f[i] == d.filter(p)[i]);
                let a = choose|a: int| 0 <= a < d.len() && d[a] == d.filter(p)[i];
                assert(q[a] == f[i]);
                assert(q[q.len() - 1] == f[j]);
            }
        }
    }
}

/// Cancelling removes every item with the id, and cancelling the same id a
/// second time changes nothing.
pub proof fn law_cancel_idempotent(q: Seq<DeferredMessage>, id: Seq<char>)
    ensures
        forall|i: int|
            0 <= i < queue_after_cancel(q, id).len() ==> (#[trigger] queue_after_cancel(q, id)[i]).id@
                != id,
        queue_after_cancel(queue_after_cancel(q, id), id) == queue_after_cancel(q, id),
{
    lemma_cancel_idempotent(q, id);
}

proof fn lemma_cancel_idempotent(q: Seq<DeferredMessage>, id: Seq<char>)
    ensures
        forall|i: int|
            0 <= i < queue_after_cancel(q, id).len() ==> (#[trigger] queue_after_cancel(q, id)[i]).id@
                != id,
        queue_after_cancel(queue_after_cancel(q, id), id) == queue_after_cancel(q, id),
    decreases q.len(),
{
    reveal_with_fuel(Seq::<_>::filter, 1);
    if q.len() > 0 {
        let d = q.drop_last();
        lemma_cancel_idempotent(d, id);
        let r = queue_after_cancel(q, id);
        if q.last().id@ != id {
            assert(r == queue_after_cancel(d, id).push(q.last()));
            assert(r.drop_last() =~= queue_after_cancel(d, id));
        } else {
            assert(r == queue_after_cancel(d, id));
        }
    }
}

} // verus!
