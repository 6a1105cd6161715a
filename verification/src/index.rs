//! The status index: a secondary, status-partitioned view of the records,
//! supporting lookups scoped to one lifecycle status.
//!
//! The index holds one bucket per status; an entry under `(status, id)` is
//! an entry under `id` in the bucket of `status`. The index performs no
//! consistency checks of its own: the operation layer is its single writer
//! and maintains agreement with the record store.

use vstd::prelude::*;
use std::collections::HashMap;
use crate::types::{ReportId, WasteData, WasteStatus};

verus! {

broadcast use vstd::std_specs::hash::group_hash_axioms;

/// The secondary index, one bucket of records per status.
pub struct StatusIndex {
    pub reported: HashMap<ReportId, WasteData>,
    pub collected: HashMap<ReportId, WasteData>,
    pub transported: HashMap<ReportId, WasteData>,
    pub utilized: HashMap<ReportId, WasteData>,
}

impl StatusIndex {
    /// The contents of the bucket that serves status `s`.
    pub open spec fn bucket(self, s: WasteStatus) -> Map<ReportId, WasteData> {
        match s {
            WasteStatus::Reported => self.reported@,
            WasteStatus::Collected => self.collected@,
            WasteStatus::Transported => self.transported@,
            WasteStatus::Utilized => self.utilized@,
        }
    }

    /// An index with every bucket empty.
    pub fn new() -> (ix: StatusIndex)
        ensures
            forall|s: WasteStatus| ix.bucket(s) == Map::<ReportId, WasteData>::empty(),
    {
        let ix = StatusIndex {
            reported: HashMap::new(),
            collected: HashMap::new(),
            transported: HashMap::new(),
            utilized: HashMap::new(),
        };
        proof {
            assert forall|s: WasteStatus| ix.bucket(s) == Map::<ReportId, WasteData>::empty() by {
                match s {
                    WasteStatus::Reported => {},
                    WasteStatus::Collected => {},
                    WasteStatus::Transported => {},
                    WasteStatus::Utilized => {},
                }
            }
        }
        ix
    }

    /// Stores `record` under `(status, id)`, overwriting whatever sat there.
    /// No duplicate check happens at this layer.
    pub fn insert(&mut self, status: WasteStatus, id: ReportId, record: WasteData)
        ensures
            final(self).bucket(status) == old(self).bucket(status).insert(id, record),
            forall|s: WasteStatus| s != status ==> final(self).bucket(s) == old(self).bucket(s),
    {
        match status {
            WasteStatus::Reported => { self.reported.insert(id, record); },
            WasteStatus::Collected => { self.collected.insert(id, record); },
            WasteStatus::Transported => { self.transported.insert(id, record); },
            WasteStatus::Utilized => { self.utilized.insert(id, record); },
        }
    }

    /// Deletes the entry under `(status, id)`, if any.
    pub fn remove(&mut self, status: WasteStatus, id: ReportId)
        ensures
            final(self).bucket(status) == old(self).bucket(status).remove(id),
            forall|s: WasteStatus| s != status ==> final(self).bucket(s) == old(self).bucket(s),
    {
        match status {
            WasteStatus::Reported => { self.reported.remove(&id); },
            WasteStatus::Collected => { self.collected.remove(&id); },
            WasteStatus::Transported => { self.transported.remove(&id); },
            WasteStatus::Utilized => { self.utilized.remove(&id); },
        }
    }

    /// Looks up the entry under `(status, id)`; reads change nothing.
    pub fn get(&self, status: WasteStatus, id: ReportId) -> (r: Option<WasteData>)
        ensures
            match r {
                Some(rec) => self.bucket(status).contains_key(id) && rec == self.bucket(status)[id],
                None => !self.bucket(status).contains_key(id),
            },
    {
        let found = match status {
            WasteStatus::Reported => self.reported.get(&id),
            WasteStatus::Collected => self.collected.get(&id),
            WasteStatus::Transported => self.transported.get(&id),
            WasteStatus::Utilized => self.utilized.get(&id),
        };
        match found {
            Some(rec) => Some(*rec),
            None => None,
        }
    }

    /// Moves the entry for `id` from the bucket of `old_status` to the
    /// bucket of `new_status`, storing `record` there. When the two statuses
    /// are equal this is a pure no-op — the move is skipped entirely, so
    /// repeating an identical request writes nothing.
    pub fn reinsert(
        &mut self,
        old_status: WasteStatus,
        new_status: WasteStatus,
        id: ReportId,
        record: WasteData,
    )
        ensures
            old_status == new_status ==> *final(self) == *old(self),
            old_status != new_status ==> {
                &&& final(self).bucket(old_status) == old(self).bucket(old_status).remove(id)
                &&& final(self).bucket(new_status) == old(self).bucket(new_status).insert(
                    id,
                    record,
                )
                &&& forall|s: WasteStatus|
                    s != old_status && s != new_status ==> final(self).bucket(s) == old(
                        self,
                    ).bucket(s)
            },
    {
        if old_status != new_status {
            self.remove(old_status, id);
            self.insert(new_status, id, record);
        }
    }
}

} // verus!
