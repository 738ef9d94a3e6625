//! Laws that span the receipt table and the status rebuilt from it.

use vstd::prelude::*;

use crate::json::json_member_u64;
use crate::receipt::{
    is_abandonment, receipt_lookup, record_lands, table_after_record, ReceiptTable,
    ReceiptWriteView,
};
use crate::status::{evidence_of, reconstructed, OutcomeTrust, ReconstructedStatusView, TerminalState};
use crate::timestamp::rfc3339_instant;

verus! {

/// The status a post-restart read of `job_id` rebuilds from the table:
/// nothing when there is no readable receipt, else the answer rebuilt from
/// the receipt, as `status_from_receipt` gives it.
pub open spec fn rebuilt_status(t: ReceiptTable, job_id: Seq<char>) -> Option<ReconstructedStatusView> {
    match receipt_lookup(t, job_id) {
        Some(Some(row)) => Some(
            reconstructed(
                row,
                json_member_u64(row.final_signal_counts, "events_emitted"@),
                evidence_of(row.metrics_json),
            ),
        ),
        _ => None,
    }
}

/// A job the daemon recorded as abandoned is reported, after a restart, as
/// abandoned: cancelled, with no exit code, never as a failure.
pub proof fn law_recorded_abandonment_reads_back_as_abandoned(
    t: ReceiptTable,
    w: ReceiptWriteView,
    now: Seq<char>,
)
    requires
        is_abandonment(w.end_cause),
        record_lands(t.get(w.job_id), w),
        rfc3339_instant(now) is Some,
    ensures
        rebuilt_status(table_after_record(t, w, now), w.job_id) matches Some(st) && st.state
            == TerminalState::Cancelled && st.exit_code is None && st.outcome_trust
            == OutcomeTrust::Abandoned && st.restarted,
{
}

/// A job whose real terminal transition was recorded is reported, after a
/// restart, with its persisted state and its truthful exit code, as
/// reconstructed; a late abandonment for the same job changes nothing of
/// that answer.
pub proof fn law_a_recorded_outcome_survives_a_late_abandonment(
    t: ReceiptTable,
    outcome: ReceiptWriteView,
    abandonment: ReceiptWriteView,
    now: Seq<char>,
    later: Seq<char>,
)
    requires
        !is_abandonment(outcome.end_cause),
        is_abandonment(abandonment.end_cause),
        abandonment.job_id == outcome.job_id,
        rfc3339_instant(now) is Some,
    ensures
        rebuilt_status(
            table_after_record(table_after_record(t, outcome, now), abandonment, later),
            outcome.job_id,
        ) == rebuilt_status(table_after_record(t, outcome, now), outcome.job_id),
        rebuilt_status(table_after_record(t, outcome, now), outcome.job_id) matches Some(st)
            && st.exit_code == outcome.exit_code && st.outcome_trust == OutcomeTrust::Reconstructed,
{
}

/// No receipt, no reconstruction: a job the table holds nothing for is never
/// given an invented terminal answer.
pub proof fn law_no_receipt_means_no_reconstruction(t: ReceiptTable, job_id: Seq<char>)
    requires
        !t.contains_key(job_id),
    ensures
        rebuilt_status(t, job_id) is None,
{
}

} // verus!
