use job_receipts::receipt::{
    decode_receipt, migration_pending, receipt_to_store, stamp_restarted, JobReceiptRow,
    ReceiptError, ReceiptWrite, StoredReceipt, ABANDONED_END_CAUSE,
};

const NOW: &str = "2026-08-06T15:07:35Z";
const LATER: &str = "2026-08-06T15:09:00.25Z";
const EVIDENCE: &str = r#"{"frames_total":4586,"bytes_total":334421,"duration_ms":641248}"#;

/// A receipt table held in memory, applying exactly the rows the library
/// decides, as the SQLite event store does.
struct Store {
    rows: Vec<StoredReceipt>,
    versions: Vec<i64>,
    read_only: bool,
}

impl Store {
    fn new() -> Store {
        let mut s = Store { rows: Vec::new(), versions: Vec::new(), read_only: false };
        s.ensure_outcome_evidence().expect("migrate job_receipts + outcome evidence");
        s
    }

    fn applied(&self, v: i64) -> i64 {
        self.versions.iter().filter(|x| **x == v).count() as i64
    }

    fn ensure(&mut self, v: i64) -> Result<(), ReceiptError> {
        if migration_pending(Some(self.applied(v))) {
            self.versions.push(v);
        }
        Ok(())
    }

    fn ensure_job_receipts(&mut self) -> Result<(), ReceiptError> {
        self.ensure(7)
    }

    fn ensure_outcome_evidence(&mut self) -> Result<(), ReceiptError> {
        self.ensure_job_receipts()?;
        self.ensure(8)
    }

    fn find(&self, job_id: &str) -> Option<usize> {
        self.rows.iter().position(|r| r.job_id == job_id)
    }

    fn put(&mut self, row: StoredReceipt) {
        match self.find(&row.job_id) {
            Some(i) => self.rows[i] = row,
            None => self.rows.push(row),
        }
    }

    #[allow(clippy::too_many_arguments)]
    fn record_job_receipt(
        &mut self,
        job_id: &str,
        bucket_id: &str,
        terminal_state: &str,
        exit_code: Option<i32>,
        final_signal_counts: &str,
        metrics_json: Option<&str>,
        end_cause: Option<&str>,
    ) -> Result<(), ReceiptError> {
        self.ensure_outcome_evidence()?;
        let write = ReceiptWrite {
            job_id: job_id.to_owned(),
            bucket_id: bucket_id.to_owned(),
            terminal_state: terminal_state.to_owned(),
            exit_code,
            final_signal_counts: final_signal_counts.to_owned(),
            metrics_json: metrics_json.map(str::to_owned),
            end_cause: end_cause.map(str::to_owned),
        };
        let existing = self.find(job_id).map(|i| self.rows[i].clone());
        if let Some(row) = receipt_to_store(existing.as_ref(), write, NOW.to_owned()) {
            self.put(row);
        }
        Ok(())
    }

    fn get_job_receipt(&self, job_id: &str) -> Result<Option<JobReceiptRow>, ReceiptError> {
        match self.find(job_id) {
            None => Ok(None),
            Some(i) => decode_receipt(self.rows[i].clone()).map(Some),
        }
    }

    fn mark_job_receipt_restarted(&mut self, job_id: &str) -> Result<(), ReceiptError> {
        let existing = self.find(job_id).map(|i| self.rows[i].clone());
        if let Some(row) = stamp_restarted(existing.as_ref(), self.read_only, LATER.to_owned()) {
            self.put(row);
        }
        Ok(())
    }
}

fn store() -> Store {
    Store::new()
}

#[test]
fn record_then_get_round_trips() {
    let mut s = store();
    s.record_job_receipt(
        "job_abc",
        "bkt_1",
        "exited",
        Some(0),
        r#"{"events_emitted":2}"#,
        Some(EVIDENCE),
        None,
    )
    .expect("record");
    let r = s.get_job_receipt("job_abc").expect("get").expect("present");
    assert_eq!(r.job_id, "job_abc");
    assert_eq!(r.bucket_id, "bkt_1");
    assert_eq!(r.terminal_state, "exited");
    assert_eq!(r.exit_code, Some(0));
    assert_eq!(r.final_signal_counts, r#"{"events_emitted":2}"#);
    assert!(r.restarted_at.is_none());
    assert_eq!(r.metrics_json.as_deref(), Some(EVIDENCE));
    assert_eq!(r.end_cause, None);
}

#[test]
fn get_unknown_is_none() {
    let s = store();
    assert!(s.get_job_receipt("job_missing").expect("get").is_none());
}

#[test]
fn record_is_idempotent_on_replace() {
    let mut s = store();
    s.record_job_receipt("job_x", "bkt_1", "exited", Some(1), "{}", None, None)
        .expect("first");
    s.record_job_receipt("job_x", "bkt_1", "exited", Some(1), "{}", None, None)
        .expect("replace");
    let r = s.get_job_receipt("job_x").expect("get").expect("present");
    assert_eq!(r.exit_code, Some(1));
}

#[test]
fn ensure_is_idempotent() {
    let mut s = store();
    s.ensure_job_receipts().expect("second ensure is a no-op");
    s.ensure_outcome_evidence()
        .expect("second outcome-evidence ensure is a no-op");
    assert_eq!(s.versions, vec![7, 8]);
}

#[test]
fn mark_restarted_stamps_once() {
    let mut s = store();
    s.record_job_receipt("job_r", "bkt_1", "exited", Some(0), "{}", None, None)
        .expect("record");
    s.mark_job_receipt_restarted("job_r").expect("mark");
    let r = s.get_job_receipt("job_r").expect("get").expect("present");
    assert!(r.restarted_at.is_some(), "restarted_at must be stamped");
}

#[test]
fn cancelled_state_round_trips_with_null_exit_code() {
    let mut s = store();
    s.record_job_receipt("job_c", "bkt_2", "cancelled", None, "{}", None, None)
        .expect("record");
    let r = s.get_job_receipt("job_c").expect("get").expect("present");
    assert_eq!(r.terminal_state, "cancelled");
    assert_eq!(r.exit_code, None);
}

#[test]
fn absent_evidence_stays_absent_and_is_never_zeroed() {
    let mut s = store();
    s.record_job_receipt("job_legacy", "bkt_1", "exited", Some(0), "{}", None, None)
        .expect("record");
    let r = s
        .get_job_receipt("job_legacy")
        .expect("get")
        .expect("present");
    assert_eq!(
        r.metrics_json, None,
        "absent evidence must not be defaulted to a zeroed object"
    );
}

#[test]
fn abandoned_end_cause_round_trips_without_an_exit_code() {
    let mut s = store();
    s.record_job_receipt(
        "job_ab",
        "bkt_3",
        "cancelled",
        None,
        "{}",
        None,
        Some("abandoned"),
    )
    .expect("record");
    let r = s.get_job_receipt("job_ab").expect("get").expect("present");
    assert_eq!(r.terminal_state, "cancelled");
    assert_eq!(r.exit_code, None);
    assert_eq!(r.end_cause.as_deref(), Some("abandoned"));
}

#[test]
fn abandonment_never_overwrites_a_real_receipt() {
    let mut s = store();
    s.record_job_receipt(
        "job_race",
        "bkt_9",
        "exited",
        Some(0),
        "{}",
        Some(r#"{"frames_total":7}"#),
        None,
    )
    .expect("real receipt");

    s.record_job_receipt(
        "job_race",
        "bkt_9",
        "cancelled",
        None,
        "{}",
        None,
        Some(ABANDONED_END_CAUSE),
    )
    .expect("late abandonment");

    let r = s
        .get_job_receipt("job_race")
        .expect("get")
        .expect("present");
    assert_eq!(r.terminal_state, "exited", "the real outcome must survive");
    assert_eq!(r.exit_code, Some(0), "a true pass must stay bankable");
    assert_eq!(r.end_cause, None, "must not be relabelled abandoned");
    assert_eq!(
        r.metrics_json.as_deref(),
        Some(r#"{"frames_total":7}"#),
        "evidence must not be erased by a late abandonment"
    );
}

#[test]
fn a_real_receipt_heals_a_stray_abandonment() {
    let mut s = store();
    s.record_job_receipt(
        "job_heal",
        "bkt_9",
        "cancelled",
        None,
        "{}",
        None,
        Some(ABANDONED_END_CAUSE),
    )
    .expect("abandonment");
    s.record_job_receipt("job_heal", "bkt_9", "exited", Some(3), "{}", None, None)
        .expect("real receipt");

    let r = s
        .get_job_receipt("job_heal")
        .expect("get")
        .expect("present");
    assert_eq!(r.terminal_state, "exited");
    assert_eq!(r.exit_code, Some(3));
    assert_eq!(r.end_cause, None, "the stray abandonment must be healed");
}

#[test]
fn abandonment_is_idempotent_over_a_prior_abandonment() {
    let mut s = store();
    for bucket in ["bkt_a", "bkt_b"] {
        s.record_job_receipt(
            "job_twice",
            bucket,
            "cancelled",
            None,
            "{}",
            None,
            Some(ABANDONED_END_CAUSE),
        )
        .expect("abandonment");
    }
    let r = s
        .get_job_receipt("job_twice")
        .expect("get")
        .expect("present");
    assert_eq!(r.end_cause.as_deref(), Some(ABANDONED_END_CAUSE));
    assert_eq!(r.bucket_id, "bkt_b", "the later abandonment applied");
}

#[test]
fn abandoned_constant_matches_the_sql_literal() {
    assert_eq!(ABANDONED_END_CAUSE, "abandoned");
}

// ---- further cases of the write discipline, the stamp and the decoding ----

#[test]
fn a_real_receipt_replaces_a_prior_real_receipt() {
    let mut s = store();
    s.record_job_receipt("job_rr", "bkt_1", "exited", Some(0), "{}", None, None)
        .expect("first");
    s.record_job_receipt("job_rr", "bkt_2", "failed", Some(2), "{}", None, None)
        .expect("second");
    let r = s.get_job_receipt("job_rr").expect("get").expect("present");
    assert_eq!(r.bucket_id, "bkt_2");
    assert_eq!(r.terminal_state, "failed");
    assert_eq!(r.exit_code, Some(2));
}

#[test]
fn an_abandonment_lands_where_no_receipt_exists() {
    let mut s = store();
    s.record_job_receipt("job_new", "bkt_1", "cancelled", None, "{}", None, Some(ABANDONED_END_CAUSE))
        .expect("abandonment");
    let r = s.get_job_receipt("job_new").expect("get").expect("present");
    assert_eq!(r.end_cause.as_deref(), Some("abandoned"));
}

#[test]
fn another_end_cause_counts_as_a_real_receipt() {
    let mut s = store();
    s.record_job_receipt("job_o", "bkt_1", "exited", Some(0), "{}", None, Some("other"))
        .expect("real receipt with another end cause");
    s.record_job_receipt("job_o", "bkt_1", "cancelled", None, "{}", None, Some(ABANDONED_END_CAUSE))
        .expect("late abandonment");
    let r = s.get_job_receipt("job_o").expect("get").expect("present");
    assert_eq!(r.end_cause.as_deref(), Some("other"));
    assert_eq!(r.exit_code, Some(0));
}

#[test]
fn a_write_leaves_other_jobs_untouched() {
    let mut s = store();
    s.record_job_receipt("job_1", "bkt_1", "exited", Some(0), "{}", None, None).expect("one");
    s.record_job_receipt("job_2", "bkt_2", "exited", Some(5), "{}", None, None).expect("two");
    let r = s.get_job_receipt("job_1").expect("get").expect("present");
    assert_eq!(r.exit_code, Some(0));
    assert_eq!(r.bucket_id, "bkt_1");
}

#[test]
fn the_restart_stamp_is_set_once_and_a_real_write_clears_it() {
    let mut s = store();
    s.record_job_receipt("job_s", "bkt_1", "exited", Some(0), "{}", None, None).expect("record");
    s.mark_job_receipt_restarted("job_s").expect("mark");
    let first = s.get_job_receipt("job_s").expect("get").expect("present").restarted_at;
    // A second stamp, at any time, keeps the first.
    let stored = s.rows[0].clone();
    assert!(stamp_restarted(Some(&stored), false, "2030-01-01T00:00:00Z".to_owned()).is_none());
    s.mark_job_receipt_restarted("job_s").expect("mark again");
    assert_eq!(s.get_job_receipt("job_s").expect("get").expect("present").restarted_at, first);
    // A fresh terminal write carries no stamp.
    s.record_job_receipt("job_s", "bkt_1", "exited", Some(0), "{}", None, None).expect("again");
    assert!(s.get_job_receipt("job_s").expect("get").expect("present").restarted_at.is_none());
}

#[test]
fn stamping_is_a_no_op_on_a_read_only_store_or_a_missing_row() {
    let mut s = store();
    s.record_job_receipt("job_ro", "bkt_1", "exited", Some(0), "{}", None, None).expect("record");
    s.read_only = true;
    s.mark_job_receipt_restarted("job_ro").expect("mark");
    assert!(s.get_job_receipt("job_ro").expect("get").expect("present").restarted_at.is_none());
    s.read_only = false;
    s.mark_job_receipt_restarted("job_none").expect("mark missing");
    assert!(s.get_job_receipt("job_none").expect("get").is_none());
}

#[test]
fn a_decoded_row_carries_the_parsed_timestamps() {
    let mut s = store();
    s.record_job_receipt("job_t", "bkt_1", "exited", Some(0), "{}", None, None).expect("record");
    s.mark_job_receipt_restarted("job_t").expect("mark");
    let r = s.get_job_receipt("job_t").expect("get").expect("present");
    // 2026-08-06T15:07:35Z
    assert_eq!(r.created_at.unix_nanos, 1_786_028_855_000_000_000);
    assert_eq!(r.created_at.utc_offset_seconds, 0);
    let stamped = r.restarted_at.expect("stamped");
    assert_eq!(stamped.unix_nanos, 1_786_028_940_250_000_000);
}

#[test]
fn an_offset_timestamp_keeps_its_offset() {
    let row = StoredReceipt {
        job_id: "job_off".to_owned(),
        bucket_id: "bkt".to_owned(),
        terminal_state: "exited".to_owned(),
        exit_code: Some(0),
        final_signal_counts: "{}".to_owned(),
        restarted_at: None,
        created_at: "2026-08-06T17:07:35+02:00".to_owned(),
        metrics_json: None,
        end_cause: None,
    };
    let r = decode_receipt(row).expect("decodes");
    assert_eq!(r.created_at.unix_nanos, 1_786_028_855_000_000_000);
    assert_eq!(r.created_at.utc_offset_seconds, 7200);
}

#[test]
fn a_corrupt_timestamp_is_refused() {
    let row = StoredReceipt {
        job_id: "job_bad".to_owned(),
        bucket_id: "bkt".to_owned(),
        terminal_state: "exited".to_owned(),
        exit_code: Some(0),
        final_signal_counts: "{}".to_owned(),
        restarted_at: Some("yesterday".to_owned()),
        created_at: NOW.to_owned(),
        metrics_json: None,
        end_cause: None,
    };
    match decode_receipt(row) {
        Err(ReceiptError::Migration(m)) => assert!(!m.is_empty()),
        Ok(_) => panic!("a corrupt restart stamp must not decode"),
    }
    let row = StoredReceipt {
        job_id: "job_bad".to_owned(),
        bucket_id: "bkt".to_owned(),
        terminal_state: "exited".to_owned(),
        exit_code: Some(0),
        final_signal_counts: "{}".to_owned(),
        restarted_at: None,
        created_at: "not a time".to_owned(),
        metrics_json: None,
        end_cause: None,
    };
    assert!(decode_receipt(row).is_err());
}

#[test]
fn a_pending_migration_is_one_not_yet_recorded() {
    assert!(migration_pending(Some(0)));
    assert!(migration_pending(None));
    assert!(!migration_pending(Some(1)));
}
