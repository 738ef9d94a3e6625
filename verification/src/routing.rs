//! The order in which a status request is answered.
//!
//! The combed lane answers first. When it declines with an unknown job, the
//! lane that owns the job answers (PTY, then file watch) with its real
//! counters; when no live lane holds the job, the persisted receipt is
//! consulted. When that too is absent, the durable start records decide
//! between a lost job (an allowed start was recorded for it, and no outcome
//! ever was) and an unknown one (no such record, or the lookup was
//! inconclusive). Any other combed error is returned as it is. Each source
//! is consulted only after every earlier one declined, which matters because
//! reading the receipt stamps it.

use vstd::prelude::*;

use crate::text::text_eq;

verus! {

/// Why the combed lane did not answer a status request.
#[derive(Debug)]
pub enum CombedStatusError<E> {
    /// The combed lane does not own the job, or the in-memory job is gone.
    UnknownJob,
    /// Any other failure, passed through to the caller.
    Other(E),
}

/// A source of a status answer consulted after the combed lane declined.
#[derive(Clone, Copy, Debug, PartialEq, Eq, Structural)]
pub enum StatusSource {
    Pty,
    Watch,
    Receipt,
}

/// What to do next while answering a status request.
#[derive(Debug)]
pub enum StatusStep<S, E> {
    /// Ask this source for the job's status.
    Consult(StatusSource),
    /// Look up whether an allowed start was durably recorded for the job.
    CheckStartRecord,
    /// Answer with this status.
    Answer(S),
    /// The job was recorded starting and never recorded finishing: it is
    /// lost. Never a terminal outcome.
    Lost,
    /// No lane, no receipt and no start record know the job: it is unknown.
    UnknownJob,
    /// The combed lane failed with this error.
    Fail(E),
}

/// A reply received while answering a status request.
#[derive(Debug)]
pub enum StatusReply<S, E> {
    /// The combed lane's reply, which is always asked first.
    Combed(Result<S, CombedStatusError<E>>),
    /// The reply of a source consulted after the combed lane declined.
    Source(StatusSource, Option<S>),
    /// Whether an allowed start was recorded for the job; `None` when the
    /// lookup was inconclusive.
    StartRecord(Option<bool>),
}

/// The step after the combed lane's reply.
pub open spec fn combed_step<S, E>(combed: Result<S, CombedStatusError<E>>) -> StatusStep<S, E> {
    match combed {
        Ok(s) => StatusStep::Answer(s),
        Err(CombedStatusError::UnknownJob) => StatusStep::Consult(StatusSource::Pty),
        Err(CombedStatusError::Other(e)) => StatusStep::Fail(e),
    }
}

/// The step after `source` replied: its status if it had one, else the next
/// source, and after the receipt, the start-record lookup.
pub open spec fn source_step<S, E>(source: StatusSource, reply: Option<S>) -> StatusStep<S, E> {
    match reply {
        Some(s) => StatusStep::Answer(s),
        None => match source {
            StatusSource::Pty => StatusStep::Consult(StatusSource::Watch),
            StatusSource::Watch => StatusStep::Consult(StatusSource::Receipt),
            StatusSource::Receipt => StatusStep::CheckStartRecord,
        },
    }
}

/// The step after the start-record lookup: lost exactly when an allowed
/// start was found; an absent record or an inconclusive lookup is unknown.
pub open spec fn start_record_step<S, E>(recorded: Option<bool>) -> StatusStep<S, E> {
    if recorded == Some(true) {
        StatusStep::Lost
    } else {
        StatusStep::UnknownJob
    }
}

/// The step after a reply.
pub open spec fn status_step<S, E>(reply: StatusReply<S, E>) -> StatusStep<S, E> {
    match reply {
        StatusReply::Combed(combed) => combed_step(combed),
        StatusReply::Source(source, r) => source_step(source, r),
        StatusReply::StartRecord(recorded) => start_record_step(recorded),
    }
}

/// Answers a `command_status` request one reply at a time: the caller asks
/// the combed lane first, hands each reply here, and follows the step it
/// gets back (consult the next source, check the start records, answer,
/// report a lost job, report an unknown job, or fail with the combed error)
/// until it is told to do neither consult nor check.
pub fn handle_command_status<S, E>(reply: StatusReply<S, E>) -> (r: StatusStep<S, E>)
    ensures
        r == status_step(reply),
{
    match reply {
        StatusReply::Combed(combed) => match combed {
            Ok(s) => StatusStep::Answer(s),
            Err(CombedStatusError::UnknownJob) => StatusStep::Consult(StatusSource::Pty),
            Err(CombedStatusError::Other(e)) => StatusStep::Fail(e),
        },
        StatusReply::Source(source, r) => match r {
            Some(s) => StatusStep::Answer(s),
            None => match source {
                StatusSource::Pty => StatusStep::Consult(StatusSource::Watch),
                StatusSource::Watch => StatusStep::Consult(StatusSource::Receipt),
                StatusSource::Receipt => StatusStep::CheckStartRecord,
            },
        },
        StatusReply::StartRecord(recorded) => match recorded {
            Some(true) => StatusStep::Lost,
            _ => StatusStep::UnknownJob,
        },
    }
}

/// The final outcome of a status request, given what each source would
/// reply: the sources are walked in order until one answers, and the start
/// records decide between lost and unknown when none does.
pub open spec fn routed_status<S, E>(
    combed: Result<S, CombedStatusError<E>>,
    pty: Option<S>,
    watch: Option<S>,
    receipt: Option<S>,
    start_recorded: Option<bool>,
) -> StatusStep<S, E> {
    match combed_step(combed) {
        StatusStep::Consult(_) => match source_step::<S, E>(StatusSource::Pty, pty) {
            StatusStep::Consult(_) => match source_step::<S, E>(StatusSource::Watch, watch) {
                StatusStep::Consult(_) => match source_step::<S, E>(StatusSource::Receipt, receipt) {
                    StatusStep::CheckStartRecord => start_record_step(start_recorded),
                    other => other,
                },
                other => other,
            },
            other => other,
        },
        other => other,
    }
}

/// A status request ends as lost exactly when the combed lane declined with
/// an unknown job, neither live lane nor the receipt answered, and an
/// allowed start was recorded; it ends as unknown exactly when all of them
/// declined and no allowed start was found or the lookup was inconclusive.
/// Lost and unknown are therefore never confused, and neither is ever an
/// answer. A combed answer is never overridden; the receipt answers only when
/// every live lane declined; a combed failure other than an unknown job is
/// passed through.
pub proof fn law_status_falls_through_in_order<S, E>(
    combed: Result<S, CombedStatusError<E>>,
    pty: Option<S>,
    watch: Option<S>,
    receipt: Option<S>,
    start_recorded: Option<bool>,
)
    ensures
        routed_status(combed, pty, watch, receipt, start_recorded) is Lost <==> (combed
            matches Err(CombedStatusError::UnknownJob) && pty is None && watch is None
            && receipt is None && start_recorded == Some(true)),
        routed_status(combed, pty, watch, receipt, start_recorded) is UnknownJob <==> (combed
            matches Err(CombedStatusError::UnknownJob) && pty is None && watch is None
            && receipt is None && start_recorded != Some(true)),
        combed matches Ok(s) ==> routed_status(combed, pty, watch, receipt, start_recorded)
            == StatusStep::<S, E>::Answer(s),
        combed matches Err(CombedStatusError::Other(e)) ==> routed_status(
            combed,
            pty,
            watch,
            receipt,
            start_recorded,
        ) == StatusStep::<S, E>::Fail(e),
        (combed matches Err(CombedStatusError::UnknownJob) && pty is None && watch is None)
            ==> (receipt matches Some(s) ==> routed_status(
            combed,
            pty,
            watch,
            receipt,
            start_recorded,
        ) == StatusStep::<S, E>::Answer(s)),
        combed matches Err(CombedStatusError::UnknownJob) ==> (pty matches Some(s)
            ==> routed_status(combed, pty, watch, receipt, start_recorded)
            == StatusStep::<S, E>::Answer(s)),
{
}

/// Whichever source is consulted (PTY, watch or receipt), a status it holds
/// is the answer: a live lane's status is never dropped in favour of a later
/// source, the start records or an error. In particular, when the combed
/// lane declined and the PTY lane had nothing, a status from the watch lane
/// is the routed outcome whatever the receipt or start records hold.
pub proof fn law_a_source_that_holds_the_job_answers<S, E>(
    source: StatusSource,
    s: S,
    receipt: Option<S>,
    start_recorded: Option<bool>,
)
    ensures
        status_step::<S, E>(StatusReply::Source(source, Some(s))) == StatusStep::<S, E>::Answer(s),
        routed_status::<S, E>(
            Err(CombedStatusError::UnknownJob),
            None,
            Some(s),
            receipt,
            start_recorded,
        ) == StatusStep::<S, E>::Answer(s),
        routed_status::<S, E>(
            Err(CombedStatusError::UnknownJob),
            Some(s),
            None,
            receipt,
            start_recorded,
        ) == StatusStep::<S, E>::Answer(s),
{
}

/// A durable audit record about a job: the action it records and the
/// decision taken on it.
#[derive(Debug, Clone)]
pub struct AuditEntry {
    pub action: String,
    pub decision: String,
}

/// Whether an audit record marks a job that really started: the start action
/// of one of the lanes (combed `command_start`, PTY `pty_command_start`,
/// shell session `shell_session_start`, file watch `file_watch_start`), with
/// the decision `allow`. A denied or failed start never counts.
pub open spec fn is_allowed_start(action: Seq<char>, decision: Seq<char>) -> bool {
    &&& (action == "command_start"@ || action == "pty_command_start"@ || action
        == "shell_session_start"@ || action == "file_watch_start"@)
    &&& decision == "allow"@
}

/// Only an allowed start of one of the four lanes counts: a record whose
/// decision is anything but `allow` (a denied or failed start) never counts,
/// whatever its action; a record whose action is not a lane start never
/// counts; and each lane's start with `allow` does count. So a job is found
/// started only where some record of it is an allowed lane start.
pub proof fn law_only_an_allowed_lane_start_counts(action: Seq<char>, decision: Seq<char>, entries: Seq<AuditEntry>)
    ensures
        is_allowed_start(action, decision) ==> decision == "allow"@,
        is_allowed_start(action, decision) ==> (action == "command_start"@ || action
            == "pty_command_start"@ || action == "shell_session_start"@ || action
            == "file_watch_start"@),
        is_allowed_start("command_start"@, "allow"@),
        is_allowed_start("pty_command_start"@, "allow"@),
        is_allowed_start("shell_session_start"@, "allow"@),
        is_allowed_start("file_watch_start"@, "allow"@),
        (forall|i: int| 0 <= i < entries.len() ==> #[trigger] entries[i].decision@ != "allow"@)
            ==> !(exists|i: int|
            0 <= i < entries.len() && #[trigger] is_allowed_start(
                entries[i].action@,
                entries[i].decision@,
            )),
{
}

/// Whether an audit record marks a job that really started.
pub fn is_allowed_start_record(entry: &AuditEntry) -> (r: bool)
    ensures
        r == is_allowed_start(entry.action@, entry.decision@),
{
    let a = entry.action.as_str();
    let lane_start = text_eq(a, "command_start") || text_eq(a, "pty_command_start") || text_eq(
        a,
        "shell_session_start",
    ) || text_eq(a, "file_watch_start");
    lane_start && text_eq(entry.decision.as_str(), "allow")
}

/// Whether any of the audit records kept for a job's id marks an allowed
/// start: the lost-job test, given every audit record whose subject is the
/// job's wire id.
pub fn job_start_recorded(entries: &Vec<AuditEntry>) -> (r: bool)
    ensures
        r == exists|i: int|
            0 <= i < entries@.len() && #[trigger] is_allowed_start(
                entries@[i].action@,
                entries@[i].decision@,
            ),
{
    let mut i: usize = 0;
    while i < entries.len()
        invariant
            i <= entries@.len(),
            forall|j: int|
                0 <= j < i ==> !#[trigger] is_allowed_start(
                    entries@[j].action@,
                    entries@[j].decision@,
                ),
        decreases entries@.len() - i,
    {
        if is_allowed_start_record(&entries[i]) {
            return true;
        }
        i = i + 1;
    }
    false
}

} // verus!
