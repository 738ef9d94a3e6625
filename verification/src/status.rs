//! Rebuilding a terminal status answer from a persisted job receipt.
//!
//! After a restart the in-memory job is gone; the status answer is then
//! rebuilt from the receipt, carrying the evidence captured when the job
//! finished and saying plainly that it was not observed live.

use vstd::prelude::*;

use crate::json::{json_member_str, json_member_u64, read_json_str, read_json_u64};
use crate::receipt::{
    decode_receipt, decoded, end_cause_is_abandonment, is_abandonment, JobReceiptRow, JobReceiptView,
    StoredReceipt,
};
use crate::text::{opt_view, text_eq};

verus! {

/// A terminal job state, as a status answer reports it.
#[derive(Clone, Copy, Debug, PartialEq, Eq, Structural)]
pub enum TerminalState {
    Exited,
    Cancelled,
    Failed,
}

/// How a reported outcome was established.
#[derive(Clone, Copy, Debug, PartialEq, Eq, Structural)]
pub enum OutcomeTrust {
    /// Witnessed live: the counters are live observations.
    Observed,
    /// Read from the durable receipt after the live record was gone.
    Reconstructed,
    /// Recorded starting and never recorded finishing.
    Lost,
    /// Ended by daemon shutdown or replacement, not by the job itself.
    Abandoned,
}

/// The compatibility `restarted` marker: true whenever the outcome was not
/// observed live. It is derived from the trust, never set on its own.
pub open spec fn restarted_for(trust: OutcomeTrust) -> bool {
    trust != OutcomeTrust::Observed
}

/// Computes the `restarted` marker for a trust value.
pub fn restarted_marker(trust: OutcomeTrust) -> (r: bool)
    ensures
        r == restarted_for(trust),
{
    !matches!(trust, OutcomeTrust::Observed)
}

/// The terminal state a persisted label stands for: `exited` and
/// `cancelled` map to themselves, and every other label (`failed` among
/// them) to `Failed`, a terminal non-success state.
pub open spec fn terminal_state_of(label: Seq<char>) -> TerminalState {
    if label == "exited"@ {
        TerminalState::Exited
    } else if label == "cancelled"@ {
        TerminalState::Cancelled
    } else {
        TerminalState::Failed
    }
}

/// Maps a persisted terminal-state label to a terminal state.
pub fn terminal_state_from_label(label: &str) -> (r: TerminalState)
    ensures
        r == terminal_state_of(label@),
{
    if text_eq(label, "exited") {
        TerminalState::Exited
    } else if text_eq(label, "cancelled") {
        TerminalState::Cancelled
    } else {
        TerminalState::Failed
    }
}

/// The evidence members read out of a receipt's `metrics_json`; each is
/// `None` where the evidence does not carry it.
#[derive(Debug, Clone)]
pub struct EvidenceReadings {
    pub frames_total: Option<u64>,
    pub frames_stdout: Option<u64>,
    pub frames_stderr: Option<u64>,
    pub bytes_total: Option<u64>,
    pub frames_suppressed: Option<u64>,
    pub frames_suppressed_progress: Option<u64>,
    pub frames_suppressed_dedupe: Option<u64>,
    pub duration_ms: Option<u64>,
    pub probe_id: Option<String>,
}

/// The content of [`EvidenceReadings`].
pub struct EvidenceReadingsView {
    pub frames_total: Option<u64>,
    pub frames_stdout: Option<u64>,
    pub frames_stderr: Option<u64>,
    pub bytes_total: Option<u64>,
    pub frames_suppressed: Option<u64>,
    pub frames_suppressed_progress: Option<u64>,
    pub frames_suppressed_dedupe: Option<u64>,
    pub duration_ms: Option<u64>,
    pub probe_id: Option<Seq<char>>,
}

impl View for EvidenceReadings {
    type V = EvidenceReadingsView;

    open spec fn view(&self) -> EvidenceReadingsView {
        EvidenceReadingsView {
            frames_total: self.frames_total,
            frames_stdout: self.frames_stdout,
            frames_stderr: self.frames_stderr,
            bytes_total: self.bytes_total,
            frames_suppressed: self.frames_suppressed,
            frames_suppressed_progress: self.frames_suppressed_progress,
            frames_suppressed_dedupe: self.frames_suppressed_dedupe,
            duration_ms: self.duration_ms,
            probe_id: opt_view(self.probe_id),
        }
    }
}

/// Evidence with nothing in it: what a receipt without `metrics_json`
/// carries.
pub open spec fn no_evidence() -> EvidenceReadingsView {
    EvidenceReadingsView {
        frames_total: None,
        frames_stdout: None,
        frames_stderr: None,
        bytes_total: None,
        frames_suppressed: None,
        frames_suppressed_progress: None,
        frames_suppressed_dedupe: None,
        duration_ms: None,
        probe_id: None,
    }
}

/// The evidence members of a receipt's `metrics_json`, as `serde_json`
/// reads them.
pub open spec fn evidence_of(metrics_json: Option<Seq<char>>) -> EvidenceReadingsView {
    match metrics_json {
        None => no_evidence(),
        Some(m) => EvidenceReadingsView {
            frames_total: json_member_u64(m, "frames_total"@),
            frames_stdout: json_member_u64(m, "frames_stdout"@),
            frames_stderr: json_member_u64(m, "frames_stderr"@),
            bytes_total: json_member_u64(m, "bytes_total"@),
            frames_suppressed: json_member_u64(m, "frames_suppressed"@),
            frames_suppressed_progress: json_member_u64(m, "frames_suppressed_progress"@),
            frames_suppressed_dedupe: json_member_u64(m, "frames_suppressed_dedupe"@),
            duration_ms: json_member_u64(m, "duration_ms"@),
            probe_id: json_member_str(m, "probe_id"@),
        },
    }
}

/// Reads the evidence members out of a receipt's `metrics_json`.
pub fn read_evidence(metrics_json: &Option<String>) -> (r: EvidenceReadings)
    ensures
        r@ == evidence_of(opt_view(*metrics_json)),
{
    match metrics_json {
        None => EvidenceReadings {
            frames_total: None,
            frames_stdout: None,
            frames_stderr: None,
            bytes_total: None,
            frames_suppressed: None,
            frames_suppressed_progress: None,
            frames_suppressed_dedupe: None,
            duration_ms: None,
            probe_id: None,
        },
        Some(m) => {
            let m = m.as_str();
            EvidenceReadings {
                frames_total: read_json_u64(m, "frames_total"),
                frames_stdout: read_json_u64(m, "frames_stdout"),
                frames_stderr: read_json_u64(m, "frames_stderr"),
                bytes_total: read_json_u64(m, "bytes_total"),
                frames_suppressed: read_json_u64(m, "frames_suppressed"),
                frames_suppressed_progress: read_json_u64(m, "frames_suppressed_progress"),
                frames_suppressed_dedupe: read_json_u64(m, "frames_suppressed_dedupe"),
                duration_ms: read_json_u64(m, "duration_ms"),
                probe_id: read_json_str(m, "probe_id"),
            }
        },
    }
}

/// A terminal status answer rebuilt from a receipt, for the job `J` it was
/// asked about. The bucket and probe ids are carried as the text the receipt
/// and its evidence hold; the caller turns them into typed ids. `R` is the
/// wire's no-silence exit receipt, which a rebuilt answer never carries: that
/// tail is kept in memory only, so its absence here does not mean the command
/// produced no output.
#[derive(Debug, Clone)]
pub struct ReconstructedStatus<J, R> {
    /// The job the status was asked about, echoed.
    pub job_id: J,
    /// The receipt's bucket id text.
    pub bucket_id: String,
    /// The evidence's probe id text, when the evidence carries one.
    pub probe_id: Option<String>,
    pub state: TerminalState,
    pub frames_total: u64,
    pub frames_stdout: u64,
    pub frames_stderr: u64,
    pub bytes_total: u64,
    pub events_emitted: u64,
    pub frames_suppressed: u64,
    pub frames_suppressed_progress: u64,
    pub frames_suppressed_dedupe: u64,
    pub exit_code: Option<i32>,
    pub duration_ms: Option<u64>,
    /// The terminating signal; a receipt records none.
    pub signal: Option<i32>,
    /// The no-silence exit receipt; never persisted, so always `None` here.
    pub receipt: Option<R>,
    pub outcome_trust: OutcomeTrust,
    /// Compatibility alias for "not observed live".
    pub restarted: bool,
}

/// The content of a [`ReconstructedStatus`] beyond the echoed job id and
/// the two fields that are always absent.
pub struct ReconstructedStatusView {
    pub bucket_id: Seq<char>,
    pub probe_id: Option<Seq<char>>,
    pub state: TerminalState,
    pub frames_total: u64,
    pub frames_stdout: u64,
    pub frames_stderr: u64,
    pub bytes_total: u64,
    pub events_emitted: u64,
    pub frames_suppressed: u64,
    pub frames_suppressed_progress: u64,
    pub frames_suppressed_dedupe: u64,
    pub exit_code: Option<i32>,
    pub duration_ms: Option<u64>,
    pub outcome_trust: OutcomeTrust,
    pub restarted: bool,
}

impl<J, R> View for ReconstructedStatus<J, R> {
    type V = ReconstructedStatusView;

    open spec fn view(&self) -> ReconstructedStatusView {
        ReconstructedStatusView {
            bucket_id: self.bucket_id@,
            probe_id: opt_view(self.probe_id),
            state: self.state,
            frames_total: self.frames_total,
            frames_stdout: self.frames_stdout,
            frames_stderr: self.frames_stderr,
            bytes_total: self.bytes_total,
            events_emitted: self.events_emitted,
            frames_suppressed: self.frames_suppressed,
            frames_suppressed_progress: self.frames_suppressed_progress,
            frames_suppressed_dedupe: self.frames_suppressed_dedupe,
            exit_code: self.exit_code,
            duration_ms: self.duration_ms,
            outcome_trust: self.outcome_trust,
            restarted: self.restarted,
        }
    }
}

/// A counter as reported: the recorded value, or zero where none was
/// recorded.
pub open spec fn count_or_zero(c: Option<u64>) -> u64 {
    match c {
        Some(n) => n,
        None => 0,
    }
}

/// The status answer rebuilt from a receipt row, given the `events_emitted`
/// member of its signal counts and the members of its evidence.
///
/// An abandoned receipt reads as `Cancelled` with no exit code and trust
/// `Abandoned`; any other receipt keeps its persisted state (through
/// [`terminal_state_of`]) and its exit code, with trust `Reconstructed`.
/// Counters come from the evidence, zero where absent; `restarted` is
/// derived from the trust.
pub open spec fn reconstructed(
    row: JobReceiptView,
    events_emitted: Option<u64>,
    ev: EvidenceReadingsView,
) -> ReconstructedStatusView {
    let abandoned = is_abandonment(row.end_cause);
    let trust = if abandoned {
        OutcomeTrust::Abandoned
    } else {
        OutcomeTrust::Reconstructed
    };
    ReconstructedStatusView {
        bucket_id: row.bucket_id,
        probe_id: ev.probe_id,
        state: if abandoned {
            TerminalState::Cancelled
        } else {
            terminal_state_of(row.terminal_state)
        },
        frames_total: count_or_zero(ev.frames_total),
        frames_stdout: count_or_zero(ev.frames_stdout),
        frames_stderr: count_or_zero(ev.frames_stderr),
        bytes_total: count_or_zero(ev.bytes_total),
        events_emitted: count_or_zero(events_emitted),
        frames_suppressed: count_or_zero(ev.frames_suppressed),
        frames_suppressed_progress: count_or_zero(ev.frames_suppressed_progress),
        frames_suppressed_dedupe: count_or_zero(ev.frames_suppressed_dedupe),
        exit_code: if abandoned {
            None
        } else {
            row.exit_code
        },
        duration_ms: ev.duration_ms,
        outcome_trust: trust,
        restarted: restarted_for(trust),
    }
}

fn or_zero(c: Option<u64>) -> (r: u64)
    ensures
        r == count_or_zero(c),
{
    match c {
        Some(n) => n,
        None => 0,
    }
}

/// Builds the status answer for a receipt row from the `events_emitted`
/// member of its signal counts and the members of its evidence.
pub fn assemble_reconstructed_status<J, R>(
    job_id: J,
    row: &JobReceiptRow,
    events_emitted: Option<u64>,
    evidence: EvidenceReadings,
) -> (r: ReconstructedStatus<J, R>)
    ensures
        r@ == reconstructed(row@, events_emitted, evidence@),
        r.job_id == job_id,
        r.signal is None,
        r.receipt is None,
{
    let abandoned = end_cause_is_abandonment(&row.end_cause);
    let (state, exit_code, outcome_trust) = if abandoned {
        (TerminalState::Cancelled, None, OutcomeTrust::Abandoned)
    } else {
        (terminal_state_from_label(row.terminal_state.as_str()), row.exit_code, OutcomeTrust::Reconstructed)
    };
    ReconstructedStatus {
        job_id,
        bucket_id: row.bucket_id.clone(),
        probe_id: evidence.probe_id,
        state,
        frames_total: or_zero(evidence.frames_total),
        frames_stdout: or_zero(evidence.frames_stdout),
        frames_stderr: or_zero(evidence.frames_stderr),
        bytes_total: or_zero(evidence.bytes_total),
        events_emitted: or_zero(events_emitted),
        frames_suppressed: or_zero(evidence.frames_suppressed),
        frames_suppressed_progress: or_zero(evidence.frames_suppressed_progress),
        frames_suppressed_dedupe: or_zero(evidence.frames_suppressed_dedupe),
        exit_code,
        duration_ms: evidence.duration_ms,
        signal: None,
        receipt: None,
        outcome_trust,
        restarted: restarted_marker(outcome_trust),
    }
}

/// Rebuilds a terminal status answer from a receipt row: reads
/// `events_emitted` from its signal counts and the evidence members from its
/// `metrics_json`, then assembles the answer.
pub fn reconstruct_status<J, R>(job_id: J, row: &JobReceiptRow) -> (r: ReconstructedStatus<J, R>)
    ensures
        r@ == reconstructed(
            row@,
            json_member_u64(row.final_signal_counts@, "events_emitted"@),
            evidence_of(opt_view(row.metrics_json)),
        ),
        r.job_id == job_id,
        r.signal is None,
        r.receipt is None,
{
    let events_emitted = read_json_u64(row.final_signal_counts.as_str(), "events_emitted");
    let evidence = read_evidence(&row.metrics_json);
    assemble_reconstructed_status(job_id, row, events_emitted, evidence)
}

/// The status answer rebuilt from a receipt read: `None` when there is no
/// row (or the read failed, which the caller passes as `None`) or the row
/// cannot be decoded; otherwise the answer [`reconstruct_status`] gives for
/// the decoded row, for `job_id`. No receipt never yields an invented
/// terminal; whether the bucket and probe id texts parse as ids plays no part
/// in whether an answer is given.
pub fn status_from_receipt<J, R>(job_id: J, read: Option<StoredReceipt>) -> (r: Option<ReconstructedStatus<J, R>>)
    ensures
        match read {
            None => r is None,
            Some(stored) => match decoded(stored@) {
                None => r is None,
                Some(row) => r matches Some(st) && st@ == reconstructed(
                    row,
                    json_member_u64(row.final_signal_counts, "events_emitted"@),
                    evidence_of(row.metrics_json),
                ) && st.job_id == job_id && st.signal is None && st.receipt is None,
            },
        },
{
    match read {
        None => None,
        Some(stored) => match decode_receipt(stored) {
            Err(_) => None,
            Ok(row) => Some(reconstruct_status(job_id, &row)),
        },
    }
}

/// An abandoned receipt is reported as a cancellation with no exit code and
/// trust `Abandoned`: never as a failure, and never with an invented exit
/// status.
pub proof fn law_abandonment_reads_as_cancelled_never_failed(
    row: JobReceiptView,
    events_emitted: Option<u64>,
    ev: EvidenceReadingsView,
)
    requires
        is_abandonment(row.end_cause),
    ensures
        reconstructed(row, events_emitted, ev).state == TerminalState::Cancelled,
        reconstructed(row, events_emitted, ev).state != TerminalState::Failed,
        reconstructed(row, events_emitted, ev).exit_code is None,
        reconstructed(row, events_emitted, ev).outcome_trust == OutcomeTrust::Abandoned,
{
}

/// A receipt that is not an abandonment keeps its truthful exit code and its
/// persisted terminal state, with trust `Reconstructed`.
pub proof fn law_real_receipt_keeps_its_state_and_exit_code(
    row: JobReceiptView,
    events_emitted: Option<u64>,
    ev: EvidenceReadingsView,
)
    requires
        !is_abandonment(row.end_cause),
    ensures
        reconstructed(row, events_emitted, ev).exit_code == row.exit_code,
        reconstructed(row, events_emitted, ev).state == terminal_state_of(row.terminal_state),
        reconstructed(row, events_emitted, ev).outcome_trust == OutcomeTrust::Reconstructed,
{
}

/// A rebuilt answer never claims a live observation, and its `restarted`
/// marker agrees with its trust.
pub proof fn law_rebuilt_answer_is_never_observed(
    row: JobReceiptView,
    events_emitted: Option<u64>,
    ev: EvidenceReadingsView,
)
    ensures
        reconstructed(row, events_emitted, ev).outcome_trust != OutcomeTrust::Observed,
        reconstructed(row, events_emitted, ev).restarted,
        reconstructed(row, events_emitted, ev).restarted == restarted_for(
            reconstructed(row, events_emitted, ev).outcome_trust,
        ),
{
}

/// The evidence captured when the job finished is what the rebuilt answer
/// reports: every counter the evidence records, its duration and its probe
/// id, unchanged.
pub proof fn law_recorded_evidence_is_reported_unchanged(
    row: JobReceiptView,
    events_emitted: Option<u64>,
    ev: EvidenceReadingsView,
)
    ensures
        ev.frames_total matches Some(n) ==> reconstructed(row, events_emitted, ev).frames_total == n,
        ev.bytes_total matches Some(n) ==> reconstructed(row, events_emitted, ev).bytes_total == n,
        ev.frames_stdout matches Some(n) ==> reconstructed(row, events_emitted, ev).frames_stdout == n,
        ev.frames_stderr matches Some(n) ==> reconstructed(row, events_emitted, ev).frames_stderr == n,
        events_emitted matches Some(n) ==> reconstructed(row, events_emitted, ev).events_emitted == n,
        reconstructed(row, events_emitted, ev).duration_ms == ev.duration_ms,
        reconstructed(row, events_emitted, ev).probe_id == ev.probe_id,
{
}

/// The counter for a JSON member: its value, or zero where it is absent.
pub open spec fn member_or_zero(m: Seq<char>, key: Seq<char>) -> u64 {
    match json_member_u64(m, key) {
        Some(n) => n,
        None => 0,
    }
}

/// Each counter of an answer rebuilt from evidence text is read from the
/// JSON member of its own name, and is zero where that member is absent,
/// whatever the other members hold; duration and probe id likewise come
/// from their own members.
pub proof fn law_each_counter_reads_its_own_member(
    row: JobReceiptView,
    events_emitted: Option<u64>,
    m: Seq<char>,
)
    ensures
        evidence_of(Some(m)).frames_stdout == json_member_u64(m, "frames_stdout"@),
        evidence_of(Some(m)).frames_total == json_member_u64(m, "frames_total"@),
        evidence_of(Some(m)).frames_stderr == json_member_u64(m, "frames_stderr"@),
        evidence_of(Some(m)).bytes_total == json_member_u64(m, "bytes_total"@),
        evidence_of(Some(m)).frames_suppressed == json_member_u64(m, "frames_suppressed"@),
        evidence_of(Some(m)).frames_suppressed_progress == json_member_u64(
            m,
            "frames_suppressed_progress"@,
        ),
        evidence_of(Some(m)).frames_suppressed_dedupe == json_member_u64(
            m,
            "frames_suppressed_dedupe"@,
        ),
        evidence_of(Some(m)).duration_ms == json_member_u64(m, "duration_ms"@),
        evidence_of(Some(m)).probe_id == json_member_str(m, "probe_id"@),
        reconstructed(row, events_emitted, evidence_of(Some(m))).frames_total == member_or_zero(
            m,
            "frames_total"@,
        ),
        reconstructed(row, events_emitted, evidence_of(Some(m))).frames_stdout == member_or_zero(
            m,
            "frames_stdout"@,
        ),
        reconstructed(row, events_emitted, evidence_of(Some(m))).frames_stderr == member_or_zero(
            m,
            "frames_stderr"@,
        ),
        reconstructed(row, events_emitted, evidence_of(Some(m))).bytes_total == member_or_zero(
            m,
            "bytes_total"@,
        ),
        reconstructed(row, events_emitted, evidence_of(Some(m))).frames_suppressed
            == member_or_zero(m, "frames_suppressed"@),
        reconstructed(row, events_emitted, evidence_of(Some(m))).frames_suppressed_progress
            == member_or_zero(m, "frames_suppressed_progress"@),
        reconstructed(row, events_emitted, evidence_of(Some(m))).frames_suppressed_dedupe
            == member_or_zero(m, "frames_suppressed_dedupe"@),
{
}

/// A receipt written without evidence is reported with zero counters and no
/// duration or probe id: nothing is invented for it.
pub proof fn law_receipt_without_evidence_reports_no_evidence(
    row: JobReceiptView,
    events_emitted: Option<u64>,
)
    requires
        row.metrics_json is None,
    ensures
        evidence_of(row.metrics_json) == no_evidence(),
        reconstructed(row, events_emitted, no_evidence()).frames_total == 0,
        reconstructed(row, events_emitted, no_evidence()).bytes_total == 0,
        reconstructed(row, events_emitted, no_evidence()).duration_ms is None,
        reconstructed(row, events_emitted, no_evidence()).probe_id is None,
{
}

} // verus!
