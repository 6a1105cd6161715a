//! The operation layer: creating reports and moving them through their
//! lifecycle, while keeping the record store and the status index in
//! agreement.
//!
//! Operations are serialized: each call runs to completion before the next
//! begins, so the agreement invariant `wf` holds at every operation
//! boundary, and every read sees it.

use vstd::prelude::*;
use crate::index::StatusIndex;
use crate::store::RecordStore;
use crate::types::{
    CallerId, Error, Event, ReportId, WasteAmount, WasteData, WasteStatus, WasteType, with_status,
};

verus! {

/// The store with its derived index and the log of emitted events. The
/// index is owned by this layer's write path and never written directly by
/// callers of the library.
pub struct Pallet {
    pub store: RecordStore,
    pub index: StatusIndex,
    pub events: Vec<Event>,
}

/// The record a successful create stores: a fresh report in the initial
/// `Reported` status, carrying the caller's arguments and identity.
pub open spec fn fresh_report(
    id: ReportId,
    waste_type: WasteType,
    waste_amount: WasteAmount,
    location_x: u32,
    location_y: u32,
    reporter: CallerId,
) -> WasteData {
    WasteData {
        report_id: id,
        waste_type,
        waste_amount,
        status: WasteStatus::Reported,
        location_x,
        location_y,
        reporter,
    }
}

/// One successful create, seen through the report counter: starting from
/// `pre`'s counter it returned the identifier `id`, one above that counter,
/// and left `post`'s counter at `id`.
pub open spec fn create_step(pre: Pallet, post: Pallet, id: ReportId) -> bool {
    &&& id == pre.store.count + 1
    &&& post.store.count == id
}

impl Pallet {
    /// Every identifier with a record was allocated: it lies in
    /// `1 ..= count`, and the record stored under it names it.
    pub open spec fn ids_allocated(self) -> bool {
        forall|id: ReportId| #[trigger] self.store.records@.contains_key(id) ==> {
            &&& 1 <= id <= self.store.count
            &&& self.store.records@[id].report_id == id
        }
    }

    /// Every stored record has exactly its own entry in the index: the
    /// bucket of its current status holds an identical copy under its
    /// identifier.
    pub open spec fn index_covers(self) -> bool {
        forall|id: ReportId| #[trigger] self.store.records@.contains_key(id) ==> {
            &&& self.index.bucket(self.store.records@[id].status).contains_key(id)
            &&& self.index.bucket(self.store.records@[id].status)[id] == self.store.records@[id]
        }
    }

    /// No orphans and no strays: an index entry under `(s, id)` exists only
    /// where the store holds a record under `id` whose current status is
    /// `s`, and the entry is an identical copy of that record.
    pub open spec fn index_exact(self) -> bool {
        forall|s: WasteStatus, id: ReportId| #[trigger] self.index.bucket(s).contains_key(id)
            ==> {
            &&& self.store.records@.contains_key(id)
            &&& self.store.records@[id].status == s
            &&& self.index.bucket(s)[id] == self.store.records@[id]
        }
    }

    /// The agreement invariant: it holds after `new` and is preserved by
    /// every operation.
    pub open spec fn wf(self) -> bool {
        &&& self.ids_allocated()
        &&& self.index_covers()
        &&& self.index_exact()
    }

    /// An empty tracker: no records, no index entries, no events, and a
    /// counter that has never allocated.
    pub fn new() -> (p: Pallet)
        ensures
            p.wf(),
            p.store.count == 0,
            p.store.records@ == Map::<ReportId, WasteData>::empty(),
            forall|s: WasteStatus| p.index.bucket(s) == Map::<ReportId, WasteData>::empty(),
            p.events@ == Seq::<Event>::empty(),
    {
        Pallet { store: RecordStore::new(), index: StatusIndex::new(), events: Vec::new() }
    }

    /// Files a new report for `reporter`: allocates the next identifier,
    /// stores a fresh record in `Reported` status, mirrors it in the index,
    /// emits `WasteDataCreated`, and returns the identifier. Fails with
    /// `BoundsOverflow` exactly when the identifier space is exhausted, and
    /// then changes nothing.
    pub fn create_waste_data(
        &mut self,
        reporter: CallerId,
        waste_type: WasteType,
        waste_amount: WasteAmount,
        location_x: u32,
        location_y: u32,
    ) -> (r: Result<ReportId, Error>)
        requires
            old(self).wf(),
        ensures
            final(self).wf(),
            final(self).store.count >= old(self).store.count,
            match r {
                Ok(id) => {
                    let report = fresh_report(
                        id,
                        waste_type,
                        waste_amount,
                        location_x,
                        location_y,
                        reporter,
                    );
                    &&& old(self).store.count < u64::MAX
                    &&& create_step(*old(self), *final(self), id)
                    &&& !old(self).store.records@.contains_key(id)
                    &&& final(self).store.records@ == old(self).store.records@.insert(id, report)
                    &&& final(self).index.bucket(WasteStatus::Reported) == old(self).index.bucket(
                        WasteStatus::Reported,
                    ).insert(id, report)
                    &&& forall|s: WasteStatus|
                        s != WasteStatus::Reported ==> final(self).index.bucket(s)
                            == old(self).index.bucket(s)
                    &&& final(self).events@ == old(self).events@.push(
                        Event::WasteDataCreated { report_id: id, reporter },
                    )
                },
                Err(e) => {
                    &&& e == Error::BoundsOverflow
                    &&& old(self).store.count == u64::MAX
                    &&& *final(self) == *old(self)
                },
            },
    {
        let id = match self.store.allocate_id() {
            Ok(id) => id,
            Err(e) => { return Err(e); },
        };
        let report = WasteData {
            report_id: id,
            waste_type,
            waste_amount,
            status: WasteStatus::Reported,
            location_x,
            location_y,
            reporter,
        };
        match self.store.insert(id, report) {
            Ok(_) => {},
            // Unreachable: `id` is above every allocated identifier, and the
            // invariant bounds every stored identifier by the old counter.
            Err(e) => { return Err(e); },
        }
        self.index.insert(WasteStatus::Reported, id, report);
        self.events.push(Event::WasteDataCreated { report_id: id, reporter });
        Ok(id)
    }

    /// Sets the status of the report under `report_id` to `new_status` on
    /// behalf of `operator`, moves its index entry between buckets when the
    /// status actually changes, and emits `WasteStatusUpdated`. When the
    /// record already has `new_status`, the index is left untouched and the
    /// stored records are unchanged, but the event is still emitted. Fails
    /// with `ReportNotFound` exactly when no record sits under `report_id`,
    /// and then changes nothing. The reporter — like every field but the
    /// status — is never changed by this operation.
    pub fn update_waste_status(
        &mut self,
        operator: CallerId,
        report_id: ReportId,
        new_status: WasteStatus,
    ) -> (r: Result<(), Error>)
        requires
            old(self).wf(),
        ensures
            final(self).wf(),
            final(self).store.count == old(self).store.count,
            forall|id: ReportId| #[trigger] final(self).store.records@.contains_key(id)
                <==> old(self).store.records@.contains_key(id),
            forall|id: ReportId| #[trigger] old(self).store.records@.contains_key(id)
                ==> final(self).store.records@[id] == with_status(
                old(self).store.records@[id],
                if id == report_id && r is Ok {
                    new_status
                } else {
                    old(self).store.records@[id].status
                },
            ),
            // The reporter of every record survives any number of updates.
            forall|id: ReportId| #[trigger] old(self).store.records@.contains_key(id)
                ==> final(self).store.records@[id].reporter
                    == old(self).store.records@[id].reporter,
            match r {
                Ok(_) => {
                    let prev = old(self).store.records@[report_id];
                    &&& old(self).store.records@.contains_key(report_id)
                    &&& final(self).store.records@ == old(self).store.records@.insert(
                        report_id,
                        with_status(prev, new_status),
                    )
                    &&& final(self).events@ == old(self).events@.push(
                        Event::WasteStatusUpdated { report_id, operator },
                    )
                    &&& prev.status == new_status ==> {
                        &&& final(self).index == old(self).index
                        &&& final(self).store.records@ == old(self).store.records@
                    }
                    &&& prev.status != new_status ==> {
                        &&& final(self).index.bucket(prev.status) == old(self).index.bucket(
                            prev.status,
                        ).remove(report_id)
                        &&& final(self).index.bucket(new_status) == old(self).index.bucket(
                            new_status,
                        ).insert(report_id, with_status(prev, new_status))
                        &&& forall|s: WasteStatus|
                            s != prev.status && s != new_status ==> final(self).index.bucket(s)
                                == old(self).index.bucket(s)
                    }
                },
                Err(e) => {
                    &&& e == Error::ReportNotFound
                    &&& !old(self).store.records@.contains_key(report_id)
                    &&& *final(self) == *old(self)
                },
            },
    {
        let prev = match self.store.set_status(report_id, new_status) {
            Ok(prev) => prev,
            Err(e) => { return Err(e); },
        };
        if prev.status != new_status {
            let mut updated = prev;
            updated.status = new_status;
            self.index.reinsert(prev.status, new_status, report_id, updated);
        } else {
            proof {
                // Overwriting the record with an identical value leaves the
                // stored map unchanged.
                assert(with_status(prev, new_status) == prev);
                assert(self.store.records@ =~= old(self).store.records@);
            }
        }
        self.events.push(Event::WasteStatusUpdated { report_id, operator });
        Ok(())
    }

    /// Looks up the record under `report_id` in the primary store; reads
    /// change nothing.
    pub fn get_report(&self, report_id: ReportId) -> (r: Option<WasteData>)
        ensures
            match r {
                Some(rec) => self.store.records@.contains_key(report_id) && rec
                    == self.store.records@[report_id],
                None => !self.store.records@.contains_key(report_id),
            },
    {
        self.store.get(report_id)
    }

    /// Lists every record whose current status is `status`, in increasing
    /// identifier order. The lookups go through the status index, but the
    /// result is exactly the matching part of the primary store: every
    /// returned record is stored under its identifier with this status, and
    /// every stored record with this status is returned once.
    pub fn list_by_status(&self, status: WasteStatus) -> (r: Vec<WasteData>)
        requires
            self.wf(),
        ensures
            forall|i: int| #![trigger r@[i]] 0 <= i < r@.len() ==> {
                &&& self.store.records@.contains_key(r@[i].report_id)
                &&& r@[i] == self.store.records@[r@[i].report_id]
                &&& r@[i].status == status
            },
            forall|id: ReportId| #[trigger] self.store.records@.contains_key(id) && self.store.records@[id].status
                == status ==> exists|i: int|
                0 <= i < r@.len() && r@[i] == self.store.records@[id],
            forall|i: int, j: int| 0 <= i < j < r@.len() ==> r@[i].report_id < r@[j].report_id,
    {
        let mut out: Vec<WasteData> = Vec::new();
        let mut id: u64 = 0;
        while id < self.store.count
            invariant
                self.wf(),
                id <= self.store.count,
                forall|i: int| #![trigger out@[i]] 0 <= i < out@.len() ==> {
                    &&& self.store.records@.contains_key(out@[i].report_id)
                    &&& out@[i] == self.store.records@[out@[i].report_id]
                    &&& out@[i].status == status
                    &&& out@[i].report_id <= id
                },
                forall|k: ReportId| #[trigger] self.store.records@.contains_key(k) && k <= id
                    && self.store.records@[k].status == status ==> exists|i: int|
                    0 <= i < out@.len() && out@[i] == self.store.records@[k],
                forall|i: int, j: int| 0 <= i < j < out@.len() ==> out@[i].report_id < out@[
                    j
                ].report_id,
            decreases self.store.count - id,
        {
            id = id + 1;
            let ghost out0 = out@;
            match self.index.get(status, id) {
                Some(rec) => {
                    out.push(rec);
                    proof {
                        assert forall|k: ReportId| #[trigger]
                            self.store.records@.contains_key(k) && k <= id
                                && self.store.records@[k].status == status implies exists|i: int|
                            0 <= i < out@.len() && out@[i] == self.store.records@[k] by {
                            if k == id {
                                assert(out@[out0.len() as int] == self.store.records@[k]);
                            } else {
                                let i = choose|i: int|
                                    0 <= i < out0.len() && out0[i] == self.store.records@[k];
                                assert(out@[i] == self.store.records@[k]);
                            }
                        }
                    }
                },
                None => {
                    proof {
                        // No record with this status sits under `id`: the
                        // invariant would otherwise force an index entry.
                        assert(!self.index.bucket(status).contains_key(id));
                    }
                },
            }
        }
        out
    }

    /// The number of reports ever created.
    pub fn report_count(&self) -> (n: u64)
        ensures
            n == self.store.count,
    {
        self.store.count
    }

    /// The events emitted so far, oldest first.
    pub fn events(&self) -> (r: &Vec<Event>)
        ensures
            r@ == self.events@,
    {
        &self.events
    }
}

/// Law: identifiers returned by successful creates in one session are
/// strictly increasing in order of creation, hence pairwise distinct. Two
/// such creates are the steps `p0 -> p1` and `p2 -> p3`; every operation's
/// contract keeps the counter from decreasing across the states in between,
/// which is all this law needs of them.
pub proof fn lemma_create_ids_strictly_increase(
    p0: Pallet,
    p1: Pallet,
    p2: Pallet,
    p3: Pallet,
    id1: ReportId,
    id2: ReportId,
)
    requires
        create_step(p0, p1, id1),
        p2.store.count >= p1.store.count,
        create_step(p2, p3, id2),
    ensures
        id2 > id1,
        id2 != id1,
{
}

/// Law: in a well-formed tracker, each stored record has exactly one index
/// entry — an identical copy in the bucket of its current status, and
/// nothing in any other bucket.
pub proof fn lemma_index_agreement(p: Pallet, id: ReportId)
    requires
        p.wf(),
        p.store.records@.contains_key(id),
    ensures
        p.index.bucket(p.store.records@[id].status).contains_key(id),
        p.index.bucket(p.store.records@[id].status)[id] == p.store.records@[id],
        forall|s: WasteStatus|
            s != p.store.records@[id].status ==> !p.index.bucket(s).contains_key(id),
{
}

/// Law: in a well-formed tracker the index holds no orphans — an entry
/// under `(s, id)` exists only where the store holds a record under `id`
/// whose current status is `s`, and the entry equals that record.
pub proof fn lemma_no_orphan_index_entries(p: Pallet, s: WasteStatus, id: ReportId)
    requires
        p.wf(),
        p.index.bucket(s).contains_key(id),
    ensures
        p.store.records@.contains_key(id),
        p.store.records@[id].status == s,
        p.index.bucket(s)[id] == p.store.records@[id],
{
}

} // verus!
