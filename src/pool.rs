use vstd::prelude::*;
use crate::instance::OwnedInstance;

verus! {

/// Most acquisitions a pool grants at once before callers must wait.
pub const ADMISSION_LIMIT: u64 = 100;

/// Most released instances a pool keeps for reuse.
pub const STORED_CAPACITY: usize = 100;

/// Seconds a released instance stays stored before it expires.
pub const POOL_TTL_SECS: u64 = 60;

/// A released instance kept for reuse, with the id it is stored under and
/// the time, in seconds, at which it was stored.
#[derive(Clone, Debug)]
pub struct StoredInstance {
    pub id: u64,
    pub stored_at: u64,
    pub instance: OwnedInstance,
}

/// Whether an entry is still live at time `now`.
pub open spec fn live(now: u64) -> spec_fn(StoredInstance) -> bool {
    |e: StoredInstance| now < e.stored_at + POOL_TTL_SECS
}

/// A request seen by an admission gate.
pub enum GateEvent {
    Acquire,
    Release,
}

/// The in-use count after one event: an acquisition is granted only below
/// the limit (a refused one leaves the count as it was), a release gives one
/// back.
pub open spec fn gate_step(limit: nat, using: nat, ev: GateEvent) -> nat {
    match ev {
        GateEvent::Acquire => if using < limit { (using + 1) as nat } else { using },
        GateEvent::Release => if using > 0 { (using - 1) as nat } else { 0 },
    }
}

/// The in-use count after a whole sequence of events.
pub open spec fn gate_run(limit: nat, using: nat, evs: Seq<GateEvent>) -> nat
    decreases evs.len(),
{
    if evs.len() == 0 {
        using
    } else {
        gate_step(limit, gate_run(limit, using, evs.drop_last()), evs.last())
    }
}

/// Whatever the acquisitions and releases, and in whatever order they come,
/// the number of acquisitions granted at once never exceeds the limit.
pub proof fn lemma_admission_bounded(limit: nat, evs: Seq<GateEvent>)
    ensures
        forall|n: int| 0 <= n <= evs.len() ==> gate_run(limit, 0, #[trigger] evs.take(n)) <= limit,
{
    assert forall|n: int| 0 <= n <= evs.len() implies gate_run(limit, 0, #[trigger] evs.take(n))
        <= limit by {
        lemma_run_bounded(limit, evs.take(n));
    }
}

proof fn lemma_run_bounded(limit: nat, evs: Seq<GateEvent>)
    ensures
        gate_run(limit, 0, evs) <= limit,
    decreases evs.len(),
{
    if evs.len() > 0 {
        lemma_run_bounded(limit, evs.drop_last());
    }
}

/// The pool of one app's owned instances: released instances are kept under
/// fresh ids for reuse, and an admission gate bounds how many acquisitions
/// are out at once. Evicting a stored instance does not change the in-use count.
pub struct OwnedEachAppCache {
    stored: Vec<StoredInstance>,
    next_instance_id: u64,
    using: u64,
    limit: u64,
}

impl OwnedEachAppCache {
    /// Stored instances, oldest first.
    pub closed spec fn stored(&self) -> Seq<StoredInstance> {
        self.stored@
    }

    pub closed spec fn using(&self) -> nat {
        self.using as nat
    }

    pub closed spec fn limit(&self) -> nat {
        self.limit as nat
    }

    pub closed spec fn next_id(&self) -> u64 {
        self.next_instance_id
    }

    pub open spec fn wf(&self) -> bool {
        &&& self.using() <= self.limit()
        &&& self.stored().len() <= STORED_CAPACITY
    }

    /// What `get` does at time `now`: refused at the limit; otherwise one
    /// more in use, expired entries are dropped, and the newest live one is
    /// handed out, or, with none live, a new instance under the next id.
    pub open spec fn get_post(
        old: Self,
        new: Self,
        file_dir: Seq<char>,
        instance_name: Seq<char>,
        now: u64,
        r: Option<OwnedInstance>,
    ) -> bool {
        let kept = old.stored().filter(live(now));
        &&& new.limit() == old.limit()
        &&& if old.using() >= old.limit() {
            r is None && new == old
        } else {
            &&& new.using() == old.using() + 1
            &&& if kept.len() > 0 {
                &&& r == Some(kept.last().instance)
                &&& new.stored() == kept.drop_last()
                &&& new.next_id() == old.next_id()
            } else {
                &&& r is Some
                &&& r->0.instance_id == old.next_id()
                &&& r->0.app@ == instance_name
                &&& r->0.dir@ == file_dir
                &&& new.stored() == kept
                &&& new.next_id() == old.next_id().wrapping_add(1)
            }
        }
    }

    /// What `put` does at time `now`: the instance is stored under the next
    /// id (the oldest stored one evicted first at capacity), and one fewer is
    /// in use.
    pub open spec fn put_post(old: Self, new: Self, value: OwnedInstance, now: u64) -> bool {
        let s = old.stored();
        let e = StoredInstance { id: old.next_id(), stored_at: now, instance: value };
        &&& new.limit() == old.limit()
        &&& new.next_id() == old.next_id().wrapping_add(1)
        &&& new.using() == gate_step(old.limit(), old.using(), GateEvent::Release)
        &&& new.stored() == if s.len() == STORED_CAPACITY {
            s.drop_first().push(e)
        } else {
            s.push(e)
        }
    }

    pub fn new() -> (r: Self)
        ensures
            r.wf(),
            r.limit() == ADMISSION_LIMIT,
            r.using() == 0,
            r.stored().len() == 0,
            r.next_id() == 0,
    {
        Self::with_limit(ADMISSION_LIMIT)
    }

    /// A pool that grants at most `limit` acquisitions at once.
    pub fn with_limit(limit: u64) -> (r: Self)
        ensures
            r.wf(),
            r.limit() == limit,
            r.using() == 0,
            r.stored().len() == 0,
            r.next_id() == 0,
    {
        OwnedEachAppCache { stored: Vec::new(), next_instance_id: 0, using: 0, limit }
    }

    pub fn using_count(&self) -> (r: u64)
        ensures
            r == self.using(),
    {
        self.using
    }

    pub fn stored_count(&self) -> (r: usize)
        ensures
            r == self.stored().len(),
    {
        self.stored.len()
    }

    /// Drops the stored entries that have expired at time `now`.
    fn purge_expired(&mut self, now: u64)
        requires
            old(self).wf(),
        ensures
            final(self).wf(),
            final(self).stored() == old(self).stored().filter(live(now)),
            final(self).using() == old(self).using(),
            final(self).limit() == old(self).limit(),
            final(self).next_id() == old(self).next_id(),
    {
        let ghost orig = self.stored@;
        let mut rest: Vec<StoredInstance> = Vec::new();
        std::mem::swap(&mut rest, &mut self.stored);
        let ghost n = rest@.len();
        while rest.len() > 0
            invariant
                rest@ == orig.subrange(n - rest@.len(), n as int),
                n == orig.len(),
                n <= STORED_CAPACITY,
                self.stored@ == orig.subrange(0, n - rest@.len()).filter(live(now)),
                self.stored@.len() <= n - rest@.len(),
                self.using == old(self).using,
                self.limit == old(self).limit,
                self.next_instance_id == old(self).next_instance_id,
                self.using <= self.limit,
            decreases rest@.len(),
        {
            let ghost k = n - rest@.len();
            let e = rest.remove(0);
            proof {
                assert(e == orig[k]);
                assert(orig.subrange(0, k + 1).drop_last() =~= orig.subrange(0, k));
                assert(orig.subrange(0, k + 1).last() == orig[k]);
                reveal(Seq::filter);
                assert(rest@ =~= orig.subrange(k + 1, n as int));
            }
            if now < e.stored_at || now - e.stored_at < POOL_TTL_SECS {
                self.stored.push(e);
            }
        }
        assert(orig.subrange(0, n as int) =~= orig);
    }

    /// Passes the admission gate and hands out an instance, at time `now`.
    /// `None`: admission is saturated, so the caller must wait until `put`
    /// is called, then ask again.
    pub fn get(&mut self, file_dir: &str, instance_name: &str, now: u64) -> (r: Option<OwnedInstance>)
        requires
            old(self).wf(),
        ensures
            final(self).wf(),
            Self::get_post(*old(self), *final(self), file_dir@, instance_name@, now, r),
            final(self).using() == gate_step(old(self).limit(), old(self).using(), GateEvent::Acquire),
    {
        if self.using >= self.limit {
            return None;
        }
        self.purge_expired(now);
        self.using = self.using + 1;
        match self.stored.pop() {
            Some(e) => Some(e.instance),
            None => {
                let id = self.next_instance_id;
                self.next_instance_id = self.next_instance_id.wrapping_add(1);
                Some(OwnedInstance { instance_id: id, app: instance_name.to_owned(), dir: file_dir.to_owned() })
            },
        }
    }

    /// Keeps `value` under the next id, stored at time `now`, and counts one
    /// acquisition as given back.
    pub fn put(&mut self, value: OwnedInstance, now: u64)
        requires
            old(self).wf(),
        ensures
            final(self).wf(),
            Self::put_post(*old(self), *final(self), value, now),
    {
        let id = self.next_instance_id;
        self.next_instance_id = self.next_instance_id.wrapping_add(1);
        if self.stored.len() == STORED_CAPACITY {
            let _ = self.stored.remove(0);
        }
        let e = StoredInstance { id, stored_at: now, instance: value };
        self.stored.push(e);
        if self.using > 0 {
            self.using = self.using - 1;
        }
        proof {
            let s = old(self).stored();
            if s.len() == STORED_CAPACITY {
                assert(self.stored() =~= s.drop_first().push(e));
            } else {
                assert(self.stored() =~= s.push(e));
            }
        }
    }
}

/// An instance given to `put` is the one that a following `get` hands out,
/// when fewer acquisitions than the limit are out and it has not expired.
pub proof fn lemma_release_then_acquire_reuses(
    p0: OwnedEachAppCache,
    p1: OwnedEachAppCache,
    p2: OwnedEachAppCache,
    inst: OwnedInstance,
    file_dir: Seq<char>,
    instance_name: Seq<char>,
    put_time: u64,
    get_time: u64,
    r: Option<OwnedInstance>,
)
    requires
        p0.wf(),
        OwnedEachAppCache::put_post(p0, p1, inst, put_time),
        OwnedEachAppCache::get_post(p1, p2, file_dir, instance_name, get_time, r),
        p1.using() < p1.limit(),
        get_time < put_time + POOL_TTL_SECS,
    ensures
        r == Some(inst),
{
    let s = p1.stored();
    let e = s.last();
    assert(s.len() > 0);
    reveal(Seq::filter);
    assert(s.drop_last().filter(live(get_time)).push(e) == s.filter(live(get_time)));
}

} // verus!
