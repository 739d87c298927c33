use stable_horder::poll::{
    classify_check, decode_check, CheckOutcome, Phase, PollAction, PollFailure, PollPolicy, Poller,
};
use stable_horder::worker::WorkerErr;

fn policy() -> PollPolicy {
    PollPolicy { max_attempts: 3, max_transient_errors: 1, interval_ms: 250 }
}

#[test]
fn classify_check_cases() {
    assert_eq!(classify_check(Some(1), None), CheckOutcome::Finished);
    assert_eq!(classify_check(Some(1), Some(false)), CheckOutcome::Finished);
    assert_eq!(classify_check(Some(0), None), CheckOutcome::Pending);
    assert_eq!(classify_check(Some(2), None), CheckOutcome::Pending);
    assert_eq!(classify_check(None, None), CheckOutcome::Malformed);
    assert_eq!(classify_check(Some(1), Some(true)), CheckOutcome::Faulted);
}

#[test]
fn decode_check_reads_members() {
    assert_eq!(decode_check(r#"{"finished": 1, "processing": 0}"#), CheckOutcome::Finished);
    assert_eq!(decode_check(r#"{"finished": 0, "waiting": 1}"#), CheckOutcome::Pending);
    assert_eq!(decode_check(r#"{"finished": 0, "faulted": true}"#), CheckOutcome::Faulted);
}

#[test]
fn decode_check_malformed_bodies() {
    assert_eq!(decode_check("not json"), CheckOutcome::Malformed);
    assert_eq!(decode_check(""), CheckOutcome::Malformed);
    assert_eq!(decode_check(r#"{"finished": "yes"}"#), CheckOutcome::Malformed);
    assert_eq!(decode_check(r#"{"done": true}"#), CheckOutcome::Malformed);
    assert_eq!(decode_check("[1, 2"), CheckOutcome::Malformed);
}

#[test]
fn completion_leads_to_one_status_fetch() {
    let mut p = Poller::new(policy());
    assert_eq!(p.on_check(CheckOutcome::Pending), PollAction::Check { delay_ms: 250 });
    assert_eq!(p.phase, Phase::Polling);
    assert_eq!(p.on_check(CheckOutcome::Finished), PollAction::FetchStatus);
    assert_eq!(p.phase, Phase::Ready);
    assert_eq!(p.on_status(), PollAction::Done);
    assert_eq!(p.phase, Phase::Retrieved);
    assert_eq!(p.attempts, 2);
}

#[test]
fn never_finishing_times_out() {
    let mut p = Poller::new(policy());
    assert_eq!(p.on_check(CheckOutcome::Pending), PollAction::Check { delay_ms: 250 });
    assert_eq!(p.on_check(CheckOutcome::Pending), PollAction::Check { delay_ms: 250 });
    assert_eq!(
        p.on_check(CheckOutcome::Pending),
        PollAction::GiveUp { failure: PollFailure::Timeout }
    );
    assert_eq!(p.phase, Phase::Stopped);
}

#[test]
fn fault_ends_polling_early() {
    let mut p = Poller::new(policy());
    assert_eq!(
        p.on_check(CheckOutcome::Faulted),
        PollAction::GiveUp { failure: PollFailure::RemoteFault }
    );
    assert_eq!(p.phase, Phase::Stopped);
}

#[test]
fn one_transport_error_is_retried() {
    let mut p = Poller::new(policy());
    assert_eq!(p.on_check(CheckOutcome::TransportError), PollAction::Check { delay_ms: 250 });
    assert_eq!(p.transient_errors, 1);
    assert_eq!(p.on_check(CheckOutcome::Finished), PollAction::FetchStatus);
}

#[test]
fn repeated_transport_errors_give_up() {
    let mut p = Poller::new(policy());
    assert_eq!(p.on_check(CheckOutcome::TransportError), PollAction::Check { delay_ms: 250 });
    assert_eq!(
        p.on_check(CheckOutcome::TransportError),
        PollAction::GiveUp { failure: PollFailure::Request }
    );
}

#[test]
fn malformed_check_is_schema_failure() {
    let mut p = Poller::new(policy());
    let outcome = decode_check("<html>busy</html>");
    assert_eq!(p.on_check(outcome), PollAction::GiveUp { failure: PollFailure::Schema });
}

#[test]
fn poll_failures_map_to_worker_errors() {
    assert_eq!(WorkerErr::from_poll_failure(PollFailure::Timeout), WorkerErr::Timeout);
    assert_eq!(WorkerErr::from_poll_failure(PollFailure::RemoteFault), WorkerErr::RemoteFault);
    assert_eq!(WorkerErr::from_poll_failure(PollFailure::Request), WorkerErr::Request);
    assert_eq!(WorkerErr::from_poll_failure(PollFailure::Schema), WorkerErr::JsonParse);
}

#[test]
fn transport_errors_are_counted_in_a_row() {
    let mut p = Poller::new(PollPolicy { max_attempts: 10, max_transient_errors: 1, interval_ms: 50 });
    assert_eq!(p.on_check(CheckOutcome::TransportError), PollAction::Check { delay_ms: 50 });
    assert_eq!(p.on_check(CheckOutcome::Pending), PollAction::Check { delay_ms: 50 });
    assert_eq!(p.transient_errors, 0);
    assert_eq!(p.on_check(CheckOutcome::TransportError), PollAction::Check { delay_ms: 50 });
    assert_eq!(p.on_check(CheckOutcome::Pending), PollAction::Check { delay_ms: 50 });
    assert_eq!(p.on_check(CheckOutcome::TransportError), PollAction::Check { delay_ms: 50 });
    assert_eq!(
        p.on_check(CheckOutcome::TransportError),
        PollAction::GiveUp { failure: PollFailure::Request }
    );
}

#[test]
fn decode_check_json_without_finished() {
    assert_eq!(decode_check(r#"{"finished": true}"#), CheckOutcome::Malformed);
    assert_eq!(decode_check(r#"{"finished": -1}"#), CheckOutcome::Malformed);
    assert_eq!(decode_check(r#"{"faulted": true}"#), CheckOutcome::Faulted);
    assert_eq!(decode_check("[1, 2]"), CheckOutcome::Malformed);
}
