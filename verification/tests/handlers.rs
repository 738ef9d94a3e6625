use std::hash::{Hash, Hasher};

use job_receipts::handlers::{
    check_command_caps, handle_command_stop, empty_output_tail, job_lost_error, output_tail_reply,
    ring_tail, tail_limits, unknown_job_error, IpcErrorCode, OutputTail, RingRead, StopMetrics,
};
use job_receipts::peer::{peer_discriminator, PeerIdentity};
use job_receipts::text::decimal_text;

#[test]
fn too_many_env_entries_are_refused_first() {
    let e = check_command_caps(65, 100, 64, 16).expect_err("over the env cap");
    assert_eq!(e.code, IpcErrorCode::ArgvInvalid);
    assert_eq!(e.message, "env entries 65 exceed cap");
}

#[test]
fn too_many_inline_rules_are_refused() {
    let e = check_command_caps(3, 17, 64, 16).expect_err("over the rules cap");
    assert_eq!(e.code, IpcErrorCode::ArgvInvalid);
    assert_eq!(e.message, "inline rules 17 exceed cap");
}

#[test]
fn requests_at_the_caps_pass() {
    assert!(check_command_caps(64, 16, 64, 16).is_ok());
    assert!(check_command_caps(0, 0, 0, 0).is_ok());
}

#[test]
fn an_unknown_job_error_names_the_job() {
    let e = unknown_job_error("job_0123");
    assert_eq!(e.code, IpcErrorCode::UnknownJob);
    assert_eq!(e.message, "unknown job: job_0123");
}

#[test]
fn a_stop_reply_carries_the_final_counters() {
    let m = StopMetrics { frames_total: 11, events_emitted: 2, bytes_total: 400 };
    let r: Result<_, ()> = handle_command_stop("job_1", Ok(("bkt_1", m)));
    let r = r.expect("stopped");
    assert_eq!(r.job_id, "job_1");
    assert_eq!(r.bucket_id, "bkt_1");
    assert_eq!(r.frames_total, 11);
    assert_eq!(r.events_emitted, 2);
    assert_eq!(r.bytes_total, 400);
    let failed = handle_command_stop::<&str, &str, &str>("job_1", Err("unknown job"));
    assert!(matches!(failed, Err("unknown job")));
}

#[test]
fn tail_limits_are_held_to_their_caps() {
    assert_eq!(tail_limits(50, 1000, 200, 65536), (50, 1000));
    assert_eq!(tail_limits(5000, 100_000, 200, 65536), (200, 65536));
    assert_eq!(tail_limits(200, 65536, 200, 65536), (200, 65536));
}

#[test]
fn a_missing_ring_reads_as_an_empty_tail() {
    let t = empty_output_tail();
    assert!(t.lines.is_empty());
    assert_eq!(t.evicted_frames, 0);
    assert!(!t.truncated);
    let r = output_tail_reply(t, 0);
    assert_eq!(r.returned_lines, 0);
    assert!(!r.truncated_lines);
}

#[test]
fn a_tail_reply_reports_what_was_cut() {
    let t = OutputTail { lines: vec!["a".to_owned(), "b".to_owned()], evicted_frames: 3, truncated: true };
    let r = output_tail_reply(t, 10);
    assert_eq!(r.lines, vec!["a".to_owned(), "b".to_owned()]);
    assert_eq!(r.returned_lines, 2);
    assert!(r.truncated_lines);
    assert!(r.truncated_bytes);
    assert_eq!(r.evicted_frames, 3);
    let t = OutputTail { lines: vec!["a".to_owned()], evicted_frames: 0, truncated: false };
    let r = output_tail_reply(t, 1);
    assert!(!r.truncated_lines);
}

#[test]
fn the_peer_discriminator_ignores_the_pid() {
    let a = peer_discriminator(&PeerIdentity::Unix { uid: 1000, pid: 1 });
    let b = peer_discriminator(&PeerIdentity::Unix { uid: 1000, pid: 2 });
    assert_eq!(a, b);
    let c = peer_discriminator(&PeerIdentity::Unix { uid: 1001, pid: 1 });
    assert_ne!(a, c);
    let w1 = peer_discriminator(&PeerIdentity::Windows { sid: "S-1-5-21-1".to_owned(), pid: 10 });
    let w2 = peer_discriminator(&PeerIdentity::Windows { sid: "S-1-5-21-1".to_owned(), pid: 20 });
    assert_eq!(w1, w2);
    let u1 = peer_discriminator(&PeerIdentity::Unknown { pid: 1 });
    let u2 = peer_discriminator(&PeerIdentity::Unknown { pid: 9 });
    assert_eq!(u1, u2);
    assert_ne!(u1, a);
}

#[test]
fn the_peer_discriminator_is_the_default_hasher_digest() {
    let mut h = std::collections::hash_map::DefaultHasher::new();
    0u8.hash(&mut h);
    1000u32.hash(&mut h);
    assert_eq!(peer_discriminator(&PeerIdentity::Unix { uid: 1000, pid: 4 }), h.finish());
    let mut h = std::collections::hash_map::DefaultHasher::new();
    1u8.hash(&mut h);
    "S-1".to_owned().hash(&mut h);
    assert_eq!(peer_discriminator(&PeerIdentity::Windows { sid: "S-1".to_owned(), pid: 4 }), h.finish());
}

#[test]
fn a_lost_job_error_names_the_job() {
    let e = job_lost_error("job_0123");
    assert_eq!(e.code, IpcErrorCode::JobLost);
    assert_eq!(e.message, "job lost: job_0123");
}

#[test]
fn a_ring_read_decides_the_tail() {
    let t = ring_tail(RingRead::NoRing).expect("an absent ring is an empty tail");
    assert!(t.lines.is_empty());
    let e = ring_tail(RingRead::Failed("ring poisoned".to_owned())).expect_err("a failed read");
    assert_eq!(e.code, IpcErrorCode::Internal);
    assert_eq!(e.message, "ring poisoned");
    let t = ring_tail(RingRead::Tail(OutputTail { lines: vec!["x".to_owned()], evicted_frames: 1, truncated: false })).expect("a tail");
    assert_eq!(t.lines, vec!["x".to_owned()]);
    assert_eq!(t.evicted_frames, 1);
}

#[test]
fn decimal_text_matches_display() {
    for n in [0usize, 7, 10, 99, 100, 1234567, usize::MAX] {
        assert_eq!(decimal_text(n), n.to_string());
    }
}
