//! Job receipts: the compact durable record of a job's terminal transition.
//!
//! A receipt lets a status poll made after a daemon restart (when the
//! in-memory job map is gone) return a known terminal result instead of a
//! bare unknown-job error. This module holds the row shapes, the write
//! discipline that decides what a write leaves in the table, the restart
//! stamp, and the decoding of a stored row; the table itself lives in the
//! SQLite event store, which applies exactly the rows decided here.

use vstd::prelude::*;

use crate::text::{clone_opt_text, opt_text_is, opt_view};
use crate::timestamp::{rfc3339_instant, rfc3339_parse, timestamp_from_rfc3339, timestamp_of, Timestamp};

verus! {

/// The one `end_cause` value that is not a real terminal outcome: the job
/// was ended by daemon shutdown or stale replacement rather than reaching
/// its own conclusion. The write discipline keys off this exact value.
pub const ABANDONED_END_CAUSE: &'static str = "abandoned";

/// The characters of [`ABANDONED_END_CAUSE`].
pub open spec fn abandoned_text() -> Seq<char> {
    ABANDONED_END_CAUSE@
}

/// Whether an `end_cause` marks an abandonment.
pub open spec fn is_abandonment(end_cause: Option<Seq<char>>) -> bool {
    end_cause == Some(abandoned_text())
}

/// Whether an `end_cause` marks an abandonment.
pub fn end_cause_is_abandonment(end_cause: &Option<String>) -> (r: bool)
    ensures
        r == is_abandonment(opt_view(*end_cause)),
{
    opt_text_is(end_cause, ABANDONED_END_CAUSE)
}

/// A receipt row exactly as the table stores it; the two timestamps are
/// RFC 3339 text.
#[derive(Debug, Clone)]
pub struct StoredReceipt {
    pub job_id: String,
    pub bucket_id: String,
    pub terminal_state: String,
    pub exit_code: Option<i32>,
    pub final_signal_counts: String,
    pub restarted_at: Option<String>,
    pub created_at: String,
    pub metrics_json: Option<String>,
    pub end_cause: Option<String>,
}

/// The content of a [`StoredReceipt`].
pub struct StoredReceiptView {
    pub job_id: Seq<char>,
    pub bucket_id: Seq<char>,
    pub terminal_state: Seq<char>,
    pub exit_code: Option<i32>,
    pub final_signal_counts: Seq<char>,
    pub restarted_at: Option<Seq<char>>,
    pub created_at: Seq<char>,
    pub metrics_json: Option<Seq<char>>,
    pub end_cause: Option<Seq<char>>,
}

impl View for StoredReceipt {
    type V = StoredReceiptView;

    open spec fn view(&self) -> StoredReceiptView {
        StoredReceiptView {
            job_id: self.job_id@,
            bucket_id: self.bucket_id@,
            terminal_state: self.terminal_state@,
            exit_code: self.exit_code,
            final_signal_counts: self.final_signal_counts@,
            restarted_at: opt_view(self.restarted_at),
            created_at: self.created_at@,
            metrics_json: opt_view(self.metrics_json),
            end_cause: opt_view(self.end_cause),
        }
    }
}

/// The arguments of one receipt write, made on a terminal transition.
///
/// `metrics_json` holds only numeric and identifier evidence (never frame
/// text); `end_cause` is `Some("abandoned")` for an abandonment.
#[derive(Debug, Clone)]
pub struct ReceiptWrite {
    pub job_id: String,
    pub bucket_id: String,
    pub terminal_state: String,
    pub exit_code: Option<i32>,
    pub final_signal_counts: String,
    pub metrics_json: Option<String>,
    pub end_cause: Option<String>,
}

/// The content of a [`ReceiptWrite`].
pub struct ReceiptWriteView {
    pub job_id: Seq<char>,
    pub bucket_id: Seq<char>,
    pub terminal_state: Seq<char>,
    pub exit_code: Option<i32>,
    pub final_signal_counts: Seq<char>,
    pub metrics_json: Option<Seq<char>>,
    pub end_cause: Option<Seq<char>>,
}

impl View for ReceiptWrite {
    type V = ReceiptWriteView;

    open spec fn view(&self) -> ReceiptWriteView {
        ReceiptWriteView {
            job_id: self.job_id@,
            bucket_id: self.bucket_id@,
            terminal_state: self.terminal_state@,
            exit_code: self.exit_code,
            final_signal_counts: self.final_signal_counts@,
            metrics_json: opt_view(self.metrics_json),
            end_cause: opt_view(self.end_cause),
        }
    }
}

/// The row a write stores when it lands at time `now`: a fresh row, with no
/// restart stamp.
pub open spec fn written_row(w: ReceiptWriteView, now: Seq<char>) -> StoredReceiptView {
    StoredReceiptView {
        job_id: w.job_id,
        bucket_id: w.bucket_id,
        terminal_state: w.terminal_state,
        exit_code: w.exit_code,
        final_signal_counts: w.final_signal_counts,
        restarted_at: None,
        created_at: now,
        metrics_json: w.metrics_json,
        end_cause: w.end_cause,
    }
}

/// Whether a write lands over the row `existing` already held for its job:
/// a real terminal transition always lands; an abandonment lands only where
/// no row exists or the row is itself an abandonment.
pub open spec fn record_lands(existing: Option<StoredReceiptView>, w: ReceiptWriteView) -> bool {
    ||| !is_abandonment(w.end_cause)
    ||| existing is None
    ||| is_abandonment(existing.unwrap().end_cause)
}

/// The receipt table: rows by job id.
pub type ReceiptTable = Map<Seq<char>, StoredReceiptView>;

/// The table after a receipt write at time `now`.
pub open spec fn table_after_record(t: ReceiptTable, w: ReceiptWriteView, now: Seq<char>) -> ReceiptTable {
    if record_lands(t.get(w.job_id), w) {
        t.insert(w.job_id, written_row(w, now))
    } else {
        t
    }
}

/// The row that a restart stamp at time `now` leaves, where it changes one:
/// the stamp is set once, only on a writable store, only on a row that has
/// none yet.
pub open spec fn stamped_row(existing: Option<StoredReceiptView>, read_only: bool, now: Seq<char>) -> Option<StoredReceiptView> {
    if read_only {
        None
    } else {
        match existing {
            Some(row) => if row.restarted_at is None {
                Some(StoredReceiptView { restarted_at: Some(now), ..row })
            } else {
                None
            },
            None => None,
        }
    }
}

/// The table after a restart stamp of `job_id` at time `now`.
pub open spec fn table_after_mark(t: ReceiptTable, job_id: Seq<char>, read_only: bool, now: Seq<char>) -> ReceiptTable {
    match stamped_row(t.get(job_id), read_only, now) {
        Some(row) => t.insert(job_id, row),
        None => t,
    }
}

/// Decides what a receipt write leaves for its job: the row to store, or
/// `None` when the row already there must stay (an abandonment never
/// overwrites a real receipt). `existing` is the row the table holds for
/// `write.job_id`, if any; `now` is the write time as RFC 3339 text.
pub fn receipt_to_store(existing: Option<&StoredReceipt>, write: ReceiptWrite, now: String) -> (r: Option<StoredReceipt>)
    ensures
        r is Some == record_lands(
            match existing { Some(e) => Some(e@), None => None },
            write@,
        ),
        r matches Some(row) ==> row@ == written_row(write@, now@),
{
    let lands = if !end_cause_is_abandonment(&write.end_cause) {
        true
    } else {
        match existing {
            None => true,
            Some(e) => end_cause_is_abandonment(&e.end_cause),
        }
    };
    if lands {
        Some(StoredReceipt {
            job_id: write.job_id,
            bucket_id: write.bucket_id,
            terminal_state: write.terminal_state,
            exit_code: write.exit_code,
            final_signal_counts: write.final_signal_counts,
            restarted_at: None,
            created_at: now,
            metrics_json: write.metrics_json,
            end_cause: write.end_cause,
        })
    } else {
        None
    }
}

/// Decides what stamping a receipt as read after a restart leaves: the
/// stamped row to store, or `None` when nothing changes (a read-only store,
/// a missing row, or a row already stamped). `now` is the stamp time as
/// RFC 3339 text.
pub fn stamp_restarted(existing: Option<&StoredReceipt>, read_only: bool, now: String) -> (r: Option<StoredReceipt>)
    ensures
        (match r { Some(row) => Some(row@), None => None }) == stamped_row(
            match existing { Some(e) => Some(e@), None => None },
            read_only,
            now@,
        ),
{
    if read_only {
        return None;
    }
    match existing {
        None => None,
        Some(e) => {
            if e.restarted_at.is_some() {
                None
            } else {
                Some(StoredReceipt {
                    job_id: e.job_id.clone(),
                    bucket_id: e.bucket_id.clone(),
                    terminal_state: e.terminal_state.clone(),
                    exit_code: e.exit_code,
                    final_signal_counts: e.final_signal_counts.clone(),
                    restarted_at: Some(now),
                    created_at: e.created_at.clone(),
                    metrics_json: clone_opt_text(&e.metrics_json),
                    end_cause: clone_opt_text(&e.end_cause),
                })
            }
        },
    }
}

/// A persisted receipt row, with its timestamps decoded.
#[derive(Debug, Clone, PartialEq, Eq)]
pub struct JobReceiptRow {
    pub job_id: String,
    pub bucket_id: String,
    /// Terminal job state as a lowercase label (`exited` / `cancelled` /
    /// `failed`).
    pub terminal_state: String,
    pub exit_code: Option<i32>,
    /// Bounded JSON object of rule-driven signal counts, e.g.
    /// `{"events_emitted":3}`.
    pub final_signal_counts: String,
    /// `Some` once a post-restart read stamped this receipt.
    pub restarted_at: Option<Timestamp>,
    pub created_at: Timestamp,
    /// Bounded JSON object of numeric and identifier evidence captured at the
    /// terminal transition; `None` for rows written before evidence existed.
    pub metrics_json: Option<String>,
    /// Why the job ended, when that is not self-evident from
    /// `terminal_state`; today only `abandoned`.
    pub end_cause: Option<String>,
}

/// The content of a [`JobReceiptRow`].
pub struct JobReceiptView {
    pub job_id: Seq<char>,
    pub bucket_id: Seq<char>,
    pub terminal_state: Seq<char>,
    pub exit_code: Option<i32>,
    pub final_signal_counts: Seq<char>,
    pub restarted_at: Option<Timestamp>,
    pub created_at: Timestamp,
    pub metrics_json: Option<Seq<char>>,
    pub end_cause: Option<Seq<char>>,
}

impl View for JobReceiptRow {
    type V = JobReceiptView;

    open spec fn view(&self) -> JobReceiptView {
        JobReceiptView {
            job_id: self.job_id@,
            bucket_id: self.bucket_id@,
            terminal_state: self.terminal_state@,
            exit_code: self.exit_code,
            final_signal_counts: self.final_signal_counts@,
            restarted_at: self.restarted_at,
            created_at: self.created_at,
            metrics_json: opt_view(self.metrics_json),
            end_cause: opt_view(self.end_cause),
        }
    }
}

/// Why a stored receipt could not be read back.
#[derive(Debug)]
pub enum ReceiptError {
    /// A stored timestamp is not RFC 3339 text; carries the parse error's
    /// message.
    Migration(String),
}

/// What reading a stored row gives: the row with both timestamps parsed, or
/// `None` where either is not RFC 3339 text.
pub open spec fn decoded(row: StoredReceiptView) -> Option<JobReceiptView> {
    match rfc3339_instant(row.created_at) {
        None => None,
        Some(c) => {
            let restarted: Option<Option<Timestamp>> = match row.restarted_at {
                None => Some(None),
                Some(s) => match rfc3339_instant(s) {
                    Some(x) => Some(Some(timestamp_of(x))),
                    None => None,
                },
            };
            match restarted {
                None => None,
                Some(restarted_at) => Some(JobReceiptView {
                    job_id: row.job_id,
                    bucket_id: row.bucket_id,
                    terminal_state: row.terminal_state,
                    exit_code: row.exit_code,
                    final_signal_counts: row.final_signal_counts,
                    restarted_at,
                    created_at: timestamp_of(c),
                    metrics_json: row.metrics_json,
                    end_cause: row.end_cause,
                }),
            }
        },
    }
}

/// Why a stored row cannot be read back: the parse error's message for
/// `created_at` when that is not RFC 3339 text, else for `restarted_at`
/// (empty where both are readable).
pub open spec fn decode_failure(row: StoredReceiptView) -> Seq<char> {
    match rfc3339_parse(row.created_at) {
        Err(m) => m,
        Ok(_) => match row.restarted_at {
            Some(s) => match rfc3339_parse(s) {
                Err(m) => m,
                Ok(_) => Seq::empty(),
            },
            None => Seq::empty(),
        },
    }
}

/// What a read of `job_id` gives back from the table: `None` for an unknown
/// job, else the decoded row (itself `None` when the row is unreadable).
pub open spec fn receipt_lookup(t: ReceiptTable, job_id: Seq<char>) -> Option<Option<JobReceiptView>> {
    if t.contains_key(job_id) {
        Some(decoded(t[job_id]))
    } else {
        None
    }
}

/// A stored row with its two timestamps already parsed: `created_at`'s parse
/// result, and `restarted_at`'s where the row has one. The first failed
/// parse (`created_at` first) is the error; otherwise every other column is
/// carried over exactly as stored.
pub fn receipt_row_from_parts(
    row: StoredReceipt,
    created_at: Result<Timestamp, String>,
    restarted_at: Option<Result<Timestamp, String>>,
) -> (r: Result<JobReceiptRow, ReceiptError>)
    ensures
        match created_at {
            Err(m) => r matches Err(ReceiptError::Migration(x)) && x@ == m@,
            Ok(c) => match restarted_at {
                Some(Err(m)) => r matches Err(ReceiptError::Migration(x)) && x@ == m@,
                _ => r matches Ok(x) && x@ == JobReceiptView {
                    job_id: row@.job_id,
                    bucket_id: row@.bucket_id,
                    terminal_state: row@.terminal_state,
                    exit_code: row@.exit_code,
                    final_signal_counts: row@.final_signal_counts,
                    restarted_at: match restarted_at {
                        Some(Ok(t)) => Some(t),
                        _ => None,
                    },
                    created_at: c,
                    metrics_json: row@.metrics_json,
                    end_cause: row@.end_cause,
                },
            },
        },
{
    let created_at = match created_at {
        Ok(t) => t,
        Err(m) => return Err(ReceiptError::Migration(m)),
    };
    let restarted_at = match restarted_at {
        None => None,
        Some(Ok(t)) => Some(t),
        Some(Err(m)) => return Err(ReceiptError::Migration(m)),
    };
    Ok(JobReceiptRow {
        job_id: row.job_id,
        bucket_id: row.bucket_id,
        terminal_state: row.terminal_state,
        exit_code: row.exit_code,
        final_signal_counts: row.final_signal_counts,
        restarted_at,
        created_at,
        metrics_json: row.metrics_json,
        end_cause: row.end_cause,
    })
}

/// Reads a stored row back: parses `created_at`, then `restarted_at` when
/// present; every other column is returned exactly as stored, and absent
/// evidence stays absent. An unreadable timestamp is a `Migration` error
/// carrying the parse error's message. The result is a function of the
/// stored row alone: reading the same row twice gives the same answer.
pub fn decode_receipt(row: StoredReceipt) -> (r: Result<JobReceiptRow, ReceiptError>)
    ensures
        match decoded(row@) {
            Some(v) => r matches Ok(x) && x@ == v,
            None => r matches Err(ReceiptError::Migration(m)) && m@ == decode_failure(row@),
        },
{
    let created_at = timestamp_from_rfc3339(row.created_at.as_str());
    let restarted_at = match &row.restarted_at {
        None => None,
        Some(s) => Some(timestamp_from_rfc3339(s.as_str())),
    };
    receipt_row_from_parts(row, created_at, restarted_at)
}

/// Whether a migration still has to run, given the count of its version in
/// the migrations table (`None` when that count could not be read, which is
/// taken as zero).
pub open spec fn migration_needed(applied_count: Option<i64>) -> bool {
    !(applied_count matches Some(n) && n != 0)
}

/// The migrations table's counts by version after an ensure of `version`:
/// a pending migration is applied and recorded once; otherwise nothing
/// changes.
pub open spec fn counts_after_ensure(counts: Map<i64, i64>, version: i64) -> Map<i64, i64> {
    if migration_needed(counts.get(version)) {
        counts.insert(version, 1)
    } else {
        counts
    }
}

/// Whether a schema migration still has to run, given the count of its
/// version in the migrations table (`None` when that count could not be
/// read, which is taken as zero).
pub fn migration_pending(applied_count: Option<i64>) -> (r: bool)
    ensures
        r == migration_needed(applied_count),
{
    match applied_count {
        Some(n) => n == 0,
        None => true,
    }
}

} // verus!
