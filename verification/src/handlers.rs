//! The computing parts of the command handlers: request caps, the stop
//! reply, and the output-tail reply.

use vstd::prelude::*;

use crate::peer::{discriminator_of, peer_discriminator, PeerIdentity};
use crate::text::{decimal_digits, text_around_count};

verus! {

/// Wire error codes produced here.
#[derive(Clone, Copy, Debug, PartialEq, Eq, Structural)]
pub enum IpcErrorCode {
    ArgvInvalid,
    UnknownJob,
    /// The job was durably recorded starting and never recorded finishing.
    JobLost,
    Internal,
}

/// A wire error: a code and a human-readable message.
#[derive(Debug)]
pub struct IpcError {
    pub code: IpcErrorCode,
    pub message: String,
}

/// The message for a request whose env entries exceed the cap.
pub open spec fn env_cap_message(n: nat) -> Seq<char> {
    "env entries "@ + decimal_digits(n) + " exceed cap"@
}

/// The message for a request whose inline rules exceed the cap.
pub open spec fn rules_cap_message(n: nat) -> Seq<char> {
    "inline rules "@ + decimal_digits(n) + " exceed cap"@
}

/// Checks a command start (combed or shell lane) against the request caps:
/// more env entries than `env_cap` is refused first, then more inline rules
/// than `rules_cap`, each as `ArgvInvalid` naming the count.
pub fn check_command_caps(env_len: usize, rules_len: usize, env_cap: usize, rules_cap: usize) -> (r: Result<(), IpcError>)
    ensures
        env_len > env_cap ==> (r matches Err(e) && e.code == IpcErrorCode::ArgvInvalid
            && e.message@ == env_cap_message(env_len as nat)),
        env_len <= env_cap && rules_len > rules_cap ==> (r matches Err(e) && e.code
            == IpcErrorCode::ArgvInvalid && e.message@ == rules_cap_message(rules_len as nat)),
        env_len <= env_cap && rules_len <= rules_cap ==> r is Ok,
{
    if env_len > env_cap {
        return Err(IpcError { code: IpcErrorCode::ArgvInvalid, message: text_around_count("env entries ", env_len, " exceed cap") });
    }
    if rules_len > rules_cap {
        return Err(IpcError { code: IpcErrorCode::ArgvInvalid, message: text_around_count("inline rules ", rules_len, " exceed cap") });
    }
    Ok(())
}

/// The error for an output-tail request naming a job the ledger does not
/// hold; `job_text` is the job id as displayed.
pub fn unknown_job_error(job_text: &str) -> (r: IpcError)
    ensures
        r.code == IpcErrorCode::UnknownJob,
        r.message@ == "unknown job: "@ + job_text@,
{
    let mut message = "unknown job: ".to_owned();
    message.append(job_text);
    IpcError { code: IpcErrorCode::UnknownJob, message }
}

/// The error for a status request naming a job that was recorded starting
/// and never recorded finishing; `job_text` is the job id as displayed.
pub fn job_lost_error(job_text: &str) -> (r: IpcError)
    ensures
        r.code == IpcErrorCode::JobLost,
        r.message@ == "job lost: "@ + job_text@,
{
    let mut message = "job lost: ".to_owned();
    message.append(job_text);
    IpcError { code: IpcErrorCode::JobLost, message }
}

/// The counters a stopped combed command reports.
#[derive(Debug, Clone, Copy)]
pub struct StopMetrics {
    pub frames_total: u64,
    pub events_emitted: u64,
    pub bytes_total: u64,
}

/// The reply to a successful `command_stop`.
pub struct CommandStopResponse<J, B> {
    pub job_id: J,
    pub bucket_id: B,
    pub frames_total: u64,
    pub events_emitted: u64,
    pub bytes_total: u64,
}

/// Answers a `command_stop` from the combed lane's stop outcome: on success
/// the reply carries the job id, the bucket and the final counters; a
/// failure is passed through for the caller to put on the wire.
pub fn handle_command_stop<J, B, E>(job_id: J, outcome: Result<(B, StopMetrics), E>) -> (r: Result<CommandStopResponse<J, B>, E>)
    ensures
        match outcome {
            Ok((bucket_id, m)) => r matches Ok(resp) && resp.job_id == job_id && resp.bucket_id
                == bucket_id && resp.frames_total == m.frames_total && resp.events_emitted
                == m.events_emitted && resp.bytes_total == m.bytes_total,
            Err(e) => r matches Err(x) && x == e,
        },
{
    match outcome {
        Ok((bucket_id, m)) => Ok(CommandStopResponse {
            job_id,
            bucket_id,
            frames_total: m.frames_total,
            events_emitted: m.events_emitted,
            bytes_total: m.bytes_total,
        }),
        Err(e) => Err(e),
    }
}

/// The smaller of a requested limit and its cap.
pub open spec fn capped(requested: u32, cap: usize) -> usize {
    if (requested as usize) < cap {
        requested as usize
    } else {
        cap
    }
}

/// A capped limit is the smaller of the request and the cap: never more than
/// was asked, never more than the cap, exactly the request when it is within
/// the cap, and exactly the cap when the request exceeds it.
pub proof fn law_a_capped_limit_is_the_minimum(requested: u32, cap: usize)
    ensures
        capped(requested, cap) <= requested,
        capped(requested, cap) <= cap,
        requested <= cap ==> capped(requested, cap) == requested,
        requested >= cap ==> capped(requested, cap) == cap,
{
}

/// The line and byte limits an output-tail read uses: each requested limit,
/// held to its cap.
pub fn tail_limits(max_lines: u32, max_bytes: u32, line_cap: usize, byte_cap: usize) -> (r: (usize, usize))
    ensures
        r.0 == capped(max_lines, line_cap),
        r.1 == capped(max_bytes, byte_cap),
        r.0 <= line_cap,
        r.1 <= byte_cap,
        r.0 <= max_lines,
        r.1 <= max_bytes,
        max_lines <= line_cap ==> r.0 == max_lines,
        max_bytes <= byte_cap ==> r.1 == max_bytes,
{
    let lines = max_lines as usize;
    let bytes = max_bytes as usize;
    let l = if lines < line_cap { lines } else { line_cap };
    let b = if bytes < byte_cap { bytes } else { byte_cap };
    (l, b)
}

/// The tail of a job's output ring.
#[derive(Debug)]
pub struct OutputTail {
    pub lines: Vec<String>,
    pub evicted_frames: u64,
    /// Whether the byte limit cut the tail short.
    pub truncated: bool,
}

/// The tail of a job whose output ring does not exist yet: no lines, nothing
/// evicted, nothing truncated.
pub fn empty_output_tail() -> (r: OutputTail)
    ensures
        r.lines@.len() == 0,
        r.evicted_frames == 0,
        !r.truncated,
{
    OutputTail { lines: Vec::new(), evicted_frames: 0, truncated: false }
}

/// What reading a job's output ring gave.
#[derive(Debug)]
pub enum RingRead {
    /// The tail of the ring.
    Tail(OutputTail),
    /// The job has no ring yet.
    NoRing,
    /// The read failed, with this message.
    Failed(String),
}

/// The tail an output-tail reply is built from: the ring's tail; an empty
/// tail where the job has no ring yet; an `Internal` error carrying the
/// message where the read failed.
pub fn ring_tail(read: RingRead) -> (r: Result<OutputTail, IpcError>)
    ensures
        match read {
            RingRead::Tail(t) => r == Ok::<OutputTail, IpcError>(t),
            RingRead::NoRing => r matches Ok(t) && t.lines@.len() == 0 && t.evicted_frames == 0
                && !t.truncated,
            RingRead::Failed(m) => r matches Err(e) && e.code == IpcErrorCode::Internal
                && e.message == m,
        },
{
    match read {
        RingRead::Tail(t) => Ok(t),
        RingRead::NoRing => Ok(empty_output_tail()),
        RingRead::Failed(m) => Err(IpcError { code: IpcErrorCode::Internal, message: m }),
    }
}

/// The output-tail reply, without the job id.
#[derive(Debug)]
pub struct OutputTailReply {
    pub lines: Vec<String>,
    pub returned_lines: u32,
    /// Whether the ring holds more frames than lines were returned.
    pub truncated_lines: bool,
    /// Whether the byte limit cut the tail short.
    pub truncated_bytes: bool,
    pub evicted_frames: u64,
}

/// Builds the output-tail reply from the tail read and the number of frames
/// the ring holds.
pub fn output_tail_reply(tail: OutputTail, frame_count: usize) -> (r: OutputTailReply)
    ensures
        r.lines@ == tail.lines@,
        r.returned_lines == tail.lines@.len() as u32,
        r.truncated_lines == (frame_count > tail.lines@.len()),
        r.truncated_bytes == tail.truncated,
        r.evicted_frames == tail.evicted_frames,
{
    let n = tail.lines.len();
    let returned_lines = n as u32;
    OutputTailReply {
        lines: tail.lines,
        returned_lines,
        truncated_lines: frame_count > n,
        truncated_bytes: tail.truncated,
        evicted_frames: tail.evicted_frames,
    }
}

/// The wire parameters of a combed `command_start`. `V`, `R`, `B` and `G` are
/// the wire's env entry, inline rule, bucket configuration and grace types.
pub struct CommandStartParams<V, R, B, G> {
    pub argv: Vec<String>,
    pub cwd: Option<String>,
    pub env: Vec<V>,
    pub bucket_config: Option<B>,
    pub rules: Vec<R>,
    pub grace: G,
    pub tag: Option<String>,
    pub strip_ansi: bool,
    pub dedup_nonce: Option<String>,
}

/// The request a combed start hands the command runtime.
pub struct CommandStartRequest<V, R, B, G> {
    pub argv: Vec<String>,
    pub cwd: Option<String>,
    pub env: Vec<V>,
    pub bucket_config: Option<B>,
    pub rules: Vec<R>,
    pub grace: G,
    pub tag: Option<String>,
    pub strip_ansi: bool,
    pub dedup_nonce: Option<String>,
    /// The dispatching peer's discriminator, so the nonce-less dedup window
    /// only collapses a same-peer retry.
    pub peer_discriminator: Option<u64>,
}

/// Validates a combed `command_start` against the caps and builds the
/// runtime request: every field threaded through unchanged (the strip flag
/// and the dedup nonce included), plus the peer's discriminator.
pub fn handle_command_start_combed<V, R, B, G>(
    params: CommandStartParams<V, R, B, G>,
    peer: &PeerIdentity,
    env_cap: usize,
    rules_cap: usize,
) -> (r: Result<CommandStartRequest<V, R, B, G>, IpcError>)
    ensures
        params.env@.len() > env_cap ==> (r matches Err(e) && e.code == IpcErrorCode::ArgvInvalid
            && e.message@ == env_cap_message(params.env@.len())),
        params.env@.len() <= env_cap && params.rules@.len() > rules_cap ==> (r matches Err(e)
            && e.code == IpcErrorCode::ArgvInvalid && e.message@ == rules_cap_message(
            params.rules@.len(),
        )),
        params.env@.len() <= env_cap && params.rules@.len() <= rules_cap ==> (r matches Ok(req)
            && req.argv == params.argv && req.cwd == params.cwd && req.env == params.env
            && req.bucket_config == params.bucket_config && req.rules == params.rules && req.grace
            == params.grace && req.tag == params.tag && req.strip_ansi == params.strip_ansi
            && req.dedup_nonce == params.dedup_nonce && req.peer_discriminator == Some(
            discriminator_of(*peer),
        )),
{
    match check_command_caps(params.env.len(), params.rules.len(), env_cap, rules_cap) {
        Err(e) => Err(e),
        Ok(()) => Ok(CommandStartRequest {
            argv: params.argv,
            cwd: params.cwd,
            env: params.env,
            bucket_config: params.bucket_config,
            rules: params.rules,
            grace: params.grace,
            tag: params.tag,
            strip_ansi: params.strip_ansi,
            dedup_nonce: params.dedup_nonce,
            peer_discriminator: Some(peer_discriminator(peer)),
        }),
    }
}

/// The wire parameters of a `shell_exec`. `V`, `R` and `B` are the wire's
/// env entry, inline rule and bucket configuration types.
pub struct ShellExecParams<V, R, B> {
    pub shell_line: String,
    pub shell: Option<String>,
    pub cwd: Option<String>,
    pub env: Vec<V>,
    pub rules: Vec<R>,
    pub bucket_config: Option<B>,
    pub tag: Option<String>,
}

/// The request a `shell_exec` hands the gated shell lane.
pub struct ShellExecRequest<V, R, B> {
    pub shell_line: String,
    pub shell: Option<String>,
    pub cwd: Option<String>,
    pub env: Vec<V>,
    pub rules: Vec<R>,
    pub bucket_config: Option<B>,
    pub tag: Option<String>,
}

/// Validates a `shell_exec` against the same caps as a combed start and
/// builds the shell lane's request, every field threaded through unchanged.
pub fn handle_shell_exec<V, R, B>(params: ShellExecParams<V, R, B>, env_cap: usize, rules_cap: usize) -> (r: Result<ShellExecRequest<V, R, B>, IpcError>)
    ensures
        params.env@.len() > env_cap ==> (r matches Err(e) && e.code == IpcErrorCode::ArgvInvalid
            && e.message@ == env_cap_message(params.env@.len())),
        params.env@.len() <= env_cap && params.rules@.len() > rules_cap ==> (r matches Err(e)
            && e.code == IpcErrorCode::ArgvInvalid && e.message@ == rules_cap_message(
            params.rules@.len(),
        )),
        params.env@.len() <= env_cap && params.rules@.len() <= rules_cap ==> (r matches Ok(req)
            && req.shell_line == params.shell_line && req.shell == params.shell && req.cwd
            == params.cwd && req.env == params.env && req.rules == params.rules
            && req.bucket_config == params.bucket_config && req.tag == params.tag),
{
    match check_command_caps(params.env.len(), params.rules.len(), env_cap, rules_cap) {
        Err(e) => Err(e),
        Ok(()) => Ok(ShellExecRequest {
            shell_line: params.shell_line,
            shell: params.shell,
            cwd: params.cwd,
            env: params.env,
            rules: params.rules,
            bucket_config: params.bucket_config,
            tag: params.tag,
        }),
    }
}

} // verus!
