//! Laws of the receipt table: what writes, stamps and reads do to it.

use vstd::prelude::*;

use crate::receipt::{
    counts_after_ensure, decoded, is_abandonment, receipt_lookup, record_lands, table_after_mark, table_after_record, written_row,
    JobReceiptView, ReceiptTable, ReceiptWriteView, StoredReceiptView,
};
use crate::timestamp::{rfc3339_instant, timestamp_of};

verus! {

/// A real terminal transition always lands: whatever the table held for its
/// job (nothing, a real receipt, or an abandonment, which it heals), the row
/// afterwards is exactly the one it wrote.
pub proof fn law_real_receipt_always_lands(t: ReceiptTable, w: ReceiptWriteView, now: Seq<char>)
    requires
        !is_abandonment(w.end_cause),
    ensures
        table_after_record(t, w, now) == t.insert(w.job_id, written_row(w, now)),
        table_after_record(t, w, now)[w.job_id] == written_row(w, now),
{
}

/// An abandonment never overwrites a real receipt: where the table holds a
/// receipt for the job whose end cause is not abandonment, the abandonment
/// leaves the whole table unchanged.
pub proof fn law_abandonment_never_overwrites_a_real_receipt(
    t: ReceiptTable,
    w: ReceiptWriteView,
    now: Seq<char>,
)
    requires
        is_abandonment(w.end_cause),
        t.contains_key(w.job_id),
        !is_abandonment(t[w.job_id].end_cause),
    ensures
        table_after_record(t, w, now) == t,
{
}

/// An abandonment lands where the job has no receipt yet, and over a prior
/// abandonment, where the later one replaces the earlier.
pub proof fn law_abandonment_lands_on_absence_or_abandonment(
    t: ReceiptTable,
    w: ReceiptWriteView,
    now: Seq<char>,
)
    requires
        is_abandonment(w.end_cause),
        !t.contains_key(w.job_id) || is_abandonment(t[w.job_id].end_cause),
    ensures
        table_after_record(t, w, now) == t.insert(w.job_id, written_row(w, now)),
{
}

/// A write touches no other job's row.
pub proof fn law_record_touches_only_its_job(
    t: ReceiptTable,
    w: ReceiptWriteView,
    now: Seq<char>,
    other: Seq<char>,
)
    requires
        other != w.job_id,
    ensures
        table_after_record(t, w, now).contains_key(other) == t.contains_key(other),
        t.contains_key(other) ==> table_after_record(t, w, now)[other] == t[other],
{
}

/// Repeating the same write at the same time changes nothing further.
pub proof fn law_record_is_idempotent(t: ReceiptTable, w: ReceiptWriteView, now: Seq<char>)
    ensures
        table_after_record(table_after_record(t, w, now), w, now) == table_after_record(t, w, now),
{
    let once = table_after_record(t, w, now);
    if record_lands(t.get(w.job_id), w) {
        assert(once.get(w.job_id) == Some(written_row(w, now)));
        assert(once.insert(w.job_id, written_row(w, now)) =~= once);
    }
}

/// A read after a write that landed gives back what was written: every
/// column as passed, no restart stamp, absent evidence still absent, and
/// the write time as the creation time.
pub proof fn law_record_then_get_round_trips(t: ReceiptTable, w: ReceiptWriteView, now: Seq<char>)
    requires
        record_lands(t.get(w.job_id), w),
        rfc3339_instant(now) is Some,
    ensures
        receipt_lookup(table_after_record(t, w, now), w.job_id) == Some(
            Some(
                JobReceiptView {
                    job_id: w.job_id,
                    bucket_id: w.bucket_id,
                    terminal_state: w.terminal_state,
                    exit_code: w.exit_code,
                    final_signal_counts: w.final_signal_counts,
                    restarted_at: None,
                    created_at: timestamp_of(rfc3339_instant(now)->0),
                    metrics_json: w.metrics_json,
                    end_cause: w.end_cause,
                },
            ),
        ),
{
}

/// A read of a job the table holds no receipt for gives nothing, never an
/// invented terminal.
pub proof fn law_unknown_job_reads_as_none(t: ReceiptTable, job_id: Seq<char>)
    requires
        !t.contains_key(job_id),
    ensures
        receipt_lookup(t, job_id) is None,
{
}

/// The restart stamp is set once: a first stamp on a writable store sets it
/// and changes nothing else; any later stamp leaves the row as it is.
pub proof fn law_mark_stamps_once(t: ReceiptTable, job_id: Seq<char>, now: Seq<char>, later: Seq<char>)
    requires
        t.contains_key(job_id),
        t[job_id].restarted_at is None,
    ensures
        table_after_mark(t, job_id, false, now) == t.insert(
            job_id,
            StoredReceiptView { restarted_at: Some(now), ..t[job_id] },
        ),
        table_after_mark(table_after_mark(t, job_id, false, now), job_id, false, later)
            == table_after_mark(t, job_id, false, now),
{
}

/// Stamping is a silent no-op on a read-only store and for a job with no
/// receipt.
pub proof fn law_mark_is_a_no_op_when_read_only_or_unknown(
    t: ReceiptTable,
    job_id: Seq<char>,
    read_only: bool,
    now: Seq<char>,
)
    requires
        read_only || !t.contains_key(job_id),
    ensures
        table_after_mark(t, job_id, read_only, now) == t,
{
}

/// Ensuring a migration is idempotent: a second ensure of the same version
/// changes nothing.
pub proof fn law_ensure_is_idempotent(counts: Map<i64, i64>, version: i64)
    ensures
        counts_after_ensure(counts_after_ensure(counts, version), version) == counts_after_ensure(
            counts,
            version,
        ),
{
}

/// Ensuring a migration leaves exactly one row for its version where the
/// table held none or one before (the version is the table's key, so it never
/// holds more).
pub proof fn law_ensure_leaves_exactly_one_version_row(counts: Map<i64, i64>, version: i64)
    requires
        !counts.contains_key(version) || counts[version] == 0 || counts[version] == 1,
    ensures
        counts_after_ensure(counts, version).contains_key(version),
        counts_after_ensure(counts, version)[version] == 1,
        forall|other: i64|
            other != version ==> counts_after_ensure(counts, version).get(other) == #[trigger] counts.get(
                other,
            ),
{
}

/// Whether a stored row can be read back depends on its timestamps alone:
/// rows that differ only in their bucket id, or in any other text column,
/// are both readable or both not. A bucket id that is not a well-formed id
/// never hides a receipt.
pub proof fn law_readability_depends_on_the_timestamps_alone(
    a: StoredReceiptView,
    b: StoredReceiptView,
)
    requires
        a.created_at == b.created_at,
        a.restarted_at == b.restarted_at,
    ensures
        decoded(a) is Some <==> decoded(b) is Some,
{
}

} // verus!
