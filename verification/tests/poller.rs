use news_server::poller::{
    next_poll, read_status, JobStatus, PollVerdict, StatusReading, MAX_POLL_ATTEMPTS,
    POLL_INTERVAL_SECS,
};

#[test]
fn the_poller_s_bounds_are_fixed() {
    assert_eq!(POLL_INTERVAL_SECS, 2);
    assert_eq!(MAX_POLL_ATTEMPTS, 60);
}

#[test]
fn statuses_are_read_by_their_exact_names() {
    assert_eq!(read_status(Some("COMPLETED")), StatusReading::Known(JobStatus::Completed));
    assert_eq!(read_status(Some("FAILED")), StatusReading::Known(JobStatus::Failed));
    assert_eq!(read_status(Some("IN_QUEUE")), StatusReading::Known(JobStatus::Queued));
    assert_eq!(read_status(Some("IN_PROGRESS")), StatusReading::Known(JobStatus::Running));
    assert_eq!(read_status(Some("in_queue")), StatusReading::Unrecognized);
    assert_eq!(read_status(Some("CANCELLED")), StatusReading::Unrecognized);
    assert_eq!(read_status(Some("")), StatusReading::Unrecognized);
    assert_eq!(read_status(None), StatusReading::Missing);
}

#[test]
fn terminal_states_end_the_polling_at_once() {
    for done in [0, 1, 30, 59] {
        assert_eq!(next_poll(done, StatusReading::Known(JobStatus::Completed)), PollVerdict::Finished);
        assert_eq!(next_poll(done, StatusReading::Known(JobStatus::Failed)), PollVerdict::JobFailed);
        assert_eq!(next_poll(done, StatusReading::Unrecognized), PollVerdict::Unrecognized);
        assert_eq!(next_poll(done, StatusReading::Missing), PollVerdict::Missing);
    }
}

#[test]
fn a_pending_job_is_polled_until_the_ceiling() {
    for done in 0..58 {
        assert_eq!(next_poll(done, StatusReading::Known(JobStatus::Queued)), PollVerdict::Again);
        assert_eq!(next_poll(done, StatusReading::Known(JobStatus::Running)), PollVerdict::Again);
    }
    assert_eq!(next_poll(58, StatusReading::Known(JobStatus::Running)), PollVerdict::Again);
    assert_eq!(next_poll(59, StatusReading::Known(JobStatus::Running)), PollVerdict::TimedOut);
    assert_eq!(next_poll(59, StatusReading::Known(JobStatus::Queued)), PollVerdict::TimedOut);
}

#[test]
fn no_answer_is_taken_beyond_the_ceiling() {
    for done in [60, 61, 1_000, u32::MAX] {
        assert_eq!(next_poll(done, StatusReading::Known(JobStatus::Completed)), PollVerdict::TimedOut);
        assert_eq!(next_poll(done, StatusReading::Known(JobStatus::Queued)), PollVerdict::TimedOut);
        assert_eq!(next_poll(done, StatusReading::Missing), PollVerdict::TimedOut);
    }
}
