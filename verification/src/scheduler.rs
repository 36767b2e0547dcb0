//! The refresh of the validator's keys.

use vstd::prelude::*;
use std::sync::Arc;
use crate::server::validator::ValidatorCapability;

verus! {

/// What a run of the refresh job came to.
pub enum SyncReport {
    /// The validator has fetched its keys again.
    Synced,
    /// The keys could not be fetched. The validator keeps the keys it had.
    Failed { detail: String },
}

/// The view of a `SyncReport`.
pub enum SyncReportView {
    Synced,
    Failed { detail: Seq<char> },
}

impl View for SyncReport {
    type V = SyncReportView;

    open spec fn view(&self) -> SyncReportView {
        match *self {
            SyncReport::Synced => SyncReportView::Synced,
            SyncReport::Failed { detail } => SyncReportView::Failed { detail: detail@ },
        }
    }
}

/// What is to be done after a run of the refresh job.
pub struct AfterSync {
    /// Whether the job stays on the schedule.
    pub keep_schedule: bool,
    /// What the log is told.
    pub report: SyncReport,
}

/// The report on the outcome of a run.
pub open spec fn report_for(outcome: Result<(), String>) -> SyncReportView {
    match outcome {
        Ok(_) => SyncReportView::Synced,
        Err(detail) => SyncReportView::Failed { detail: detail@ },
    }
}

/// Decides what follows a run of the refresh job. Whatever the outcome, a
/// failure too, the job stays on the schedule: the failure is reported and
/// goes no further.
pub fn after_sync(outcome: Result<(), String>) -> (after: AfterSync)
    ensures
        after.keep_schedule,
        after.report@ == report_for(outcome),
{
    AfterSync {
        keep_schedule: true,
        report: match outcome {
            Ok(_) => SyncReport::Synced,
            Err(detail) => SyncReport::Failed { detail },
        },
    }
}

/// One run of the refresh job: the validator is asked to fetch its keys
/// again. However that goes, the job stays on the schedule.
pub fn run_refresh(validator: &Arc<Box<dyn ValidatorCapability>>) -> (after: AfterSync)
    ensures
        after.keep_schedule,
{
    after_sync(validator.sync())
}

} // verus!
