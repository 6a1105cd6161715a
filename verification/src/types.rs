//! Core data model: report records, their lifecycle status, the error and
//! event vocabulary of the store.

use vstd::prelude::*;

verus! {

/// Unique identifier of a report, allocated by the record store.
pub type ReportId = u64;

/// Caller-supplied classification code, opaque to the store.
pub type WasteType = u32;

/// Caller-supplied quantity, opaque to the store.
pub type WasteAmount = u64;

/// An authenticated caller identity. Authentication itself happens outside
/// this library; here an identity is an opaque value attached to records
/// and events.
pub type CallerId = u64;

/// Lifecycle stage of a report. Any status may be set to any other status:
/// the store imposes no ordering between stages.
#[derive(Clone, Copy, PartialEq, Eq, Structural, Debug)]
pub enum WasteStatus {
    Reported,
    Collected,
    Transported,
    Utilized,
}

/// One filed waste-disposal report. Only `status` ever changes after
/// creation; every other field is fixed when the record is created.
#[derive(Clone, Copy, PartialEq, Eq, Structural, Debug)]
pub struct WasteData {
    pub report_id: ReportId,
    pub waste_type: WasteType,
    pub waste_amount: WasteAmount,
    pub status: WasteStatus,
    pub location_x: u32,
    pub location_y: u32,
    pub reporter: CallerId,
}

/// The ways an operation can fail. Every error is reported to the caller
/// with no change to the store.
#[derive(Clone, Copy, PartialEq, Eq, Structural, Debug)]
pub enum Error {
    /// A record already exists under the identifier being inserted.
    DuplicateReport,
    /// The identifier space is exhausted: the report counter is at its
    /// maximum value.
    BoundsOverflow,
    /// An update targets an identifier with no record.
    ReportNotFound,
}

/// Domain events emitted by successful operations, in order, for an
/// external notification sink to consume.
#[derive(Clone, Copy, PartialEq, Eq, Structural, Debug)]
pub enum Event {
    WasteDataCreated { report_id: ReportId, reporter: CallerId },
    WasteStatusUpdated { report_id: ReportId, operator: CallerId },
}

/// The record `r` with its status replaced by `s` and every other field
/// kept.
pub open spec fn with_status(r: WasteData, s: WasteStatus) -> WasteData {
    WasteData { status: s, ..r }
}

} // verus!
