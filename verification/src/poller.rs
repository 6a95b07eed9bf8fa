//! The bounded polling of a submitted job: how a reported status is read,
//! and when the poller asks again, finishes or gives up.

use vstd::prelude::*;
use crate::text::text_eq;

verus! {

/// The seconds between two polls.
pub const POLL_INTERVAL_SECS: u64 = 2;

/// The number of polls after which the poller gives up.
pub const MAX_POLL_ATTEMPTS: u32 = 60;

/// The state of a job upstream.
#[derive(Debug, Clone, Copy, PartialEq, Eq)]
pub enum JobStatus {
    Queued,
    Running,
    Completed,
    Failed,
}

/// What the status field of a reply says.
#[derive(Debug, Clone, Copy, PartialEq, Eq)]
pub enum StatusReading {
    /// One of the states that the protocol names.
    Known(JobStatus),
    /// A status that the protocol does not name.
    Unrecognized,
    /// No status at all.
    Missing,
}

/// What the poller does after a poll was answered.
#[derive(Debug, Clone, Copy, PartialEq, Eq)]
pub enum PollVerdict {
    /// The job is done: take its output.
    Finished,
    /// The job failed upstream.
    JobFailed,
    /// The job is still pending: wait, then poll again.
    Again,
    /// The job is still pending after the last poll that the poller makes.
    TimedOut,
    /// The reply names a status that the protocol does not know: stop.
    Unrecognized,
    /// The reply names no status: stop.
    Missing,
}

/// How a status field reads.
pub open spec fn reading_of(status: Option<Seq<char>>) -> StatusReading {
    match status {
        None => StatusReading::Missing,
        Some(s) => if s == "COMPLETED"@ {
            StatusReading::Known(JobStatus::Completed)
        } else if s == "FAILED"@ {
            StatusReading::Known(JobStatus::Failed)
        } else if s == "IN_QUEUE"@ {
            StatusReading::Known(JobStatus::Queued)
        } else if s == "IN_PROGRESS"@ {
            StatusReading::Known(JobStatus::Running)
        } else {
            StatusReading::Unrecognized
        },
    }
}

/// Whether a reading leaves the job pending.
pub open spec fn is_pending(reading: StatusReading) -> bool {
    reading == StatusReading::Known(JobStatus::Queued) || reading == StatusReading::Known(
        JobStatus::Running,
    )
}

/// The verdict on the answer to a poll that `polls_done` answered polls went
/// before. A terminal state ends the polling at once; a pending one lets it
/// go on until the last poll is answered; a status that the protocol does
/// not know ends it too. No answer beyond the last poll is taken.
pub open spec fn verdict_of(polls_done: int, reading: StatusReading) -> PollVerdict {
    if polls_done >= MAX_POLL_ATTEMPTS {
        PollVerdict::TimedOut
    } else {
        match reading {
            StatusReading::Known(JobStatus::Completed) => PollVerdict::Finished,
            StatusReading::Known(JobStatus::Failed) => PollVerdict::JobFailed,
            StatusReading::Known(_) => if polls_done + 1 < MAX_POLL_ATTEMPTS {
                PollVerdict::Again
            } else {
                PollVerdict::TimedOut
            },
            StatusReading::Unrecognized => PollVerdict::Unrecognized,
            StatusReading::Missing => PollVerdict::Missing,
        }
    }
}

/// The verdict with which a poller ends that starts after `polls_done`
/// answered polls and is answered by `readings` in turn, and the number of
/// polls that it has then made in all. Where the readings run out while the
/// job is pending, the verdict is `Again`.
pub open spec fn run_of(polls_done: int, readings: Seq<StatusReading>) -> (PollVerdict, int)
    decreases readings.len(),
{
    if readings.len() == 0 {
        (PollVerdict::Again, polls_done)
    } else {
        let verdict = verdict_of(polls_done, readings[0]);
        if verdict == PollVerdict::Again {
            run_of(polls_done + 1, readings.drop_first())
        } else {
            (verdict, polls_done + 1)
        }
    }
}

/// Reads the status field of a reply.
pub fn read_status(status: Option<&str>) -> (reading: StatusReading)
    ensures
        reading == reading_of(
            match status {
                Some(s) => Some(s@),
                None => None,
            },
        ),
{
    match status {
        None => StatusReading::Missing,
        Some(s) => {
            if text_eq(s, "COMPLETED") {
                StatusReading::Known(JobStatus::Completed)
            } else if text_eq(s, "FAILED") {
                StatusReading::Known(JobStatus::Failed)
            } else if text_eq(s, "IN_QUEUE") {
                StatusReading::Known(JobStatus::Queued)
            } else if text_eq(s, "IN_PROGRESS") {
                StatusReading::Known(JobStatus::Running)
            } else {
                StatusReading::Unrecognized
            }
        },
    }
}

/// The verdict on the answer to a poll that `polls_done` answered polls went
/// before.
pub fn next_poll(polls_done: u32, reading: StatusReading) -> (verdict: PollVerdict)
    ensures
        verdict == verdict_of(polls_done as int, reading),
        verdict == PollVerdict::Again ==> polls_done + 1 < MAX_POLL_ATTEMPTS,
{
    if polls_done >= MAX_POLL_ATTEMPTS {
        return PollVerdict::TimedOut;
    }
    match reading {
        StatusReading::Known(JobStatus::Completed) => PollVerdict::Finished,
        StatusReading::Known(JobStatus::Failed) => PollVerdict::JobFailed,
        StatusReading::Known(_) => {
            if polls_done + 1 < MAX_POLL_ATTEMPTS {
                PollVerdict::Again
            } else {
                PollVerdict::TimedOut
            }
        },
        StatusReading::Unrecognized => PollVerdict::Unrecognized,
        StatusReading::Missing => PollVerdict::Missing,
    }
}

/// A poller never makes more polls than the ceiling allows, whatever it is
/// answered, and it goes on only while it is below the ceiling.
pub proof fn lemma_polls_bounded(polls_done: int, readings: Seq<StatusReading>)
    requires
        0 <= polls_done < MAX_POLL_ATTEMPTS,
    ensures
        run_of(polls_done, readings).1 <= MAX_POLL_ATTEMPTS,
        run_of(polls_done, readings).0 == PollVerdict::Again ==> run_of(polls_done, readings).1
            < MAX_POLL_ATTEMPTS,
    decreases readings.len(),
{
    if readings.len() > 0 {
        let verdict = verdict_of(polls_done, readings[0]);
        if verdict == PollVerdict::Again {
            lemma_polls_bounded(polls_done + 1, readings.drop_first());
        }
    }
}

/// A job that stays pending makes the poller give up with the answer to its
/// last poll: it has then made as many polls as the ceiling allows, and no
/// more.
pub proof fn lemma_pending_job_times_out(polls_done: int, readings: Seq<StatusReading>)
    requires
        0 <= polls_done < MAX_POLL_ATTEMPTS,
        polls_done + readings.len() >= MAX_POLL_ATTEMPTS,
        forall|i: int| 0 <= i < readings.len() ==> is_pending(#[trigger] readings[i]),
    ensures
        run_of(polls_done, readings) == (PollVerdict::TimedOut, MAX_POLL_ATTEMPTS as int),
    decreases readings.len(),
{
    assert(is_pending(readings[0]));
    if polls_done + 1 < MAX_POLL_ATTEMPTS {
        let rest = readings.drop_first();
        assert forall|i: int| 0 <= i < rest.len() implies is_pending(#[trigger] rest[i]) by {
            assert(rest[i] == readings[i + 1]);
        }
        lemma_pending_job_times_out(polls_done + 1, rest);
    }
}

} // verus!
