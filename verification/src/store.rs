use vstd::prelude::*;
use vstd::rwlock::RwLock;
use vstd::rwlock::RwLockPredicate;

use crate::position::Position;

verus! {

/// The snapshot a store holds after a given sequence of committed writes:
/// the most recent write, or the default position while nothing has been
/// written yet.
pub open spec fn snapshot_after(writes: Seq<Position>) -> Position {
    if writes.len() == 0 {
        Position::spec_default()
    } else {
        writes.last()
    }
}

/// The shared "latest known position" snapshot, last-write-wins.
///
/// Exactly one task writes (the telemetry drain loop); readers copy the
/// whole pair out in one step, so a read can never mix the latitude of one
/// write with the longitude of another. The store keeps a ghost record of
/// every committed write, which lets the contracts say precisely which
/// write a read observes.
pub struct PositionStore {
    latest: Position,
    history: Ghost<Seq<Position>>,
}

impl PositionStore {
    /// Every write committed so far, oldest first.
    pub closed spec fn writes(&self) -> Seq<Position> {
        self.history@
    }

    /// The store always holds the snapshot its write history prescribes.
    pub closed spec fn wf(&self) -> bool {
        self.latest == snapshot_after(self.history@)
    }

    /// A fresh store: no writes yet, snapshot `(0.0, 0.0)`.
    pub fn new() -> (s: Self)
        ensures
            s.wf(),
            s.writes() == Seq::<Position>::empty(),
    {
        PositionStore { latest: Position::new(0, 0), history: Ghost(Seq::empty()) }
    }

    /// Commit one position sample: both coordinates are overwritten
    /// together, verbatim, with no validation of their values.
    pub fn write(&mut self, p: Position)
        requires
            old(self).wf(),
        ensures
            final(self).wf(),
            final(self).writes() == old(self).writes().push(p),
    {
        self.latest = p;
        proof {
            self.history@ = self.history@.push(p);
        }
    }

    /// Copy the current snapshot out: exactly the value the most recent
    /// write committed, or the default if none has.
    pub fn read(&self) -> (p: Position)
        requires
            self.wf(),
        ensures
            p == snapshot_after(self.writes()),
    {
        self.latest
    }
}

/// The lock invariant of [`SharedPositionStore`]: whatever the
/// interleaving, the store behind the lock is well-formed.
pub struct StoreInv {}

impl RwLockPredicate<PositionStore> for StoreInv {
    open spec fn inv(self, s: PositionStore) -> bool {
        s.wf()
    }
}

/// A [`PositionStore`] behind a reader-writer lock, so that the telemetry
/// drain task can commit samples while the event correlator reads
/// concurrently.
///
/// The whole pair lives under one lock and is replaced and copied out as
/// one value, so no reader can observe a half-written snapshot; the exact
/// read/write semantics are those proved of [`PositionStore`]. What a
/// concurrent read returns depends on the real-time interleaving, so
/// `read` carries no postcondition; [`lemma_store_coherence`] says which
/// write any given read observes.
pub struct SharedPositionStore {
    lock: RwLock<PositionStore, StoreInv>,
}

impl SharedPositionStore {
    /// The lock carries the well-formedness invariant.
    pub closed spec fn wf(&self) -> bool {
        self.lock.pred() == (StoreInv {})
    }

    /// A fresh shared store holding the default snapshot.
    pub fn new() -> (s: Self)
        ensures
            s.wf(),
    {
        let store = PositionStore::new();
        SharedPositionStore { lock: RwLock::new(store, Ghost(StoreInv {})) }
    }

    /// Commit one sample: take the write lock, overwrite both coordinates
    /// together, release.
    pub fn write(&self, p: Position)
        requires
            self.wf(),
    {
        let (mut store, handle) = self.lock.acquire_write();
        store.write(p);
        handle.release_write(store);
    }

    /// Copy the current snapshot out under a read lock.
    pub fn read(&self) -> (p: Position)
        requires
            self.wf(),
    {
        let handle = self.lock.acquire_read();
        let p = handle.borrow().read();
        handle.release_read();
        p
    }
}

/// After any interleaving of writes, a read that lands after the k-th
/// write and before the next one observes exactly the pair the k-th write
/// committed — never a latitude and a longitude from different writes.
pub proof fn lemma_store_coherence(writes: Seq<Position>, k: int)
    requires
        0 <= k < writes.len(),
    ensures
        snapshot_after(writes.take(k + 1)) == writes[k],
{
    assert(writes.take(k + 1).last() == writes[k]);
}

/// Before any telemetry sample has been delivered, every read returns the
/// default snapshot `(0.0, 0.0)`.
pub proof fn lemma_default_snapshot()
    ensures
        snapshot_after(Seq::<Position>::empty()) == Position::spec_default(),
{
}

} // verus!
