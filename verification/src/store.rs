//! The record store: canonical storage of reports keyed by identifier,
//! together with identifier allocation.
//!
//! The counter counts every identifier ever handed out. It never decreases,
//! so an identifier, once allocated, is never handed out again — even if
//! the insert that was meant to follow an allocation never happened and the
//! identifier remains unused.

use vstd::prelude::*;
use std::collections::HashMap;
use crate::types::{Error, ReportId, WasteData, WasteStatus, with_status};

verus! {

broadcast use vstd::std_specs::hash::group_hash_axioms;

/// Canonical storage: every record lives here, under its identifier.
/// The `count` field is the number of identifiers ever allocated; the next
/// identifier to be handed out is `count + 1`.
pub struct RecordStore {
    pub count: u64,
    pub records: HashMap<ReportId, WasteData>,
}

impl RecordStore {
    /// An empty store that has never allocated an identifier.
    pub fn new() -> (s: RecordStore)
        ensures
            s.count == 0,
            s.records@ == Map::<ReportId, WasteData>::empty(),
    {
        RecordStore { count: 0, records: HashMap::new() }
    }

    /// Hands out the next identifier, `count + 1`, committing the counter
    /// increment before returning. Fails with `BoundsOverflow` exactly when
    /// the counter is already at its maximum, and then changes nothing.
    pub fn allocate_id(&mut self) -> (r: Result<ReportId, Error>)
        ensures
            final(self).records@ == old(self).records@,
            final(self).count >= old(self).count,
            match r {
                Ok(id) => {
                    &&& old(self).count < u64::MAX
                    &&& id == old(self).count + 1
                    &&& final(self).count == id
                },
                Err(e) => {
                    &&& e == Error::BoundsOverflow
                    &&& old(self).count == u64::MAX
                    &&& *final(self) == *old(self)
                },
            },
    {
        if self.count < u64::MAX {
            self.count = self.count + 1;
            Ok(self.count)
        } else {
            Err(Error::BoundsOverflow)
        }
    }

    /// Stores `record` under `id`. Fails with `DuplicateReport` exactly when
    /// a record already sits under `id`, and then changes nothing.
    pub fn insert(&mut self, id: ReportId, record: WasteData) -> (r: Result<(), Error>)
        ensures
            final(self).count == old(self).count,
            match r {
                Ok(_) => {
                    &&& !old(self).records@.contains_key(id)
                    &&& final(self).records@ == old(self).records@.insert(id, record)
                },
                Err(e) => {
                    &&& e == Error::DuplicateReport
                    &&& old(self).records@.contains_key(id)
                    &&& *final(self) == *old(self)
                },
            },
    {
        if self.records.contains_key(&id) {
            Err(Error::DuplicateReport)
        } else {
            self.records.insert(id, record);
            Ok(())
        }
    }

    /// Looks up the record under `id`; reads change nothing.
    pub fn get(&self, id: ReportId) -> (r: Option<WasteData>)
        ensures
            match r {
                Some(rec) => self.records@.contains_key(id) && rec == self.records@[id],
                None => !self.records@.contains_key(id),
            },
    {
        match self.records.get(&id) {
            Some(rec) => Some(*rec),
            None => None,
        }
    }

    /// Overwrites the status of the record under `id`, returning the record
    /// as it stood before the write. This is the only path by which a stored
    /// record changes, and it changes nothing but the status field. Fails
    /// with `ReportNotFound` exactly when no record sits under `id`, and
    /// then changes nothing.
    pub fn set_status(&mut self, id: ReportId, new_status: WasteStatus) -> (r: Result<
        WasteData,
        Error,
    >)
        ensures
            final(self).count == old(self).count,
            match r {
                Ok(prev) => {
                    &&& old(self).records@.contains_key(id)
                    &&& prev == old(self).records@[id]
                    &&& final(self).records@ == old(self).records@.insert(
                        id,
                        with_status(prev, new_status),
                    )
                },
                Err(e) => {
                    &&& e == Error::ReportNotFound
                    &&& !old(self).records@.contains_key(id)
                    &&& *final(self) == *old(self)
                },
            },
    {
        let prev = match self.records.get(&id) {
            Some(rec) => *rec,
            None => { return Err(Error::ReportNotFound); },
        };
        let mut updated = prev;
        updated.status = new_status;
        self.records.insert(id, updated);
        Ok(prev)
    }
}

} // verus!
