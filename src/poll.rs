//! Observing a submitted generation until it completes: decoding the check
//! endpoint's answer, and the state machine that decides what to do next.
use vstd::prelude::*;
use crate::outside::{bool_member, json_bool_member, json_u64_member, parse_json, parses_as_json, u64_member};

verus! {

/// What one call of the check endpoint came back with.
#[derive(Debug, Clone, Copy, PartialEq, Eq, Structural)]
pub enum CheckOutcome {
    /// The generation is not finished yet.
    Pending,
    /// The generation is finished: its status may be fetched.
    Finished,
    /// The service reports the generation as faulted.
    Faulted,
    /// The call failed at the transport level (connect, timeout, TLS).
    TransportError,
    /// The body was not JSON, or lacked a readable `finished` indicator.
    Malformed,
}

/// Why polling gave up.
#[derive(Debug, Clone, Copy, PartialEq, Eq, Structural)]
pub enum PollFailure {
    /// The attempt budget ran out before completion was reported.
    Timeout,
    /// The service reported the generation as faulted.
    RemoteFault,
    /// More transport failures in a row than the policy tolerates.
    Request,
    /// The check endpoint answered with something unreadable.
    Schema,
}

/// What the caller is to do next.
#[derive(Debug, Clone, Copy, PartialEq, Eq, Structural)]
pub enum PollAction {
    /// Wait `delay_ms` milliseconds, then call the check endpoint.
    Check { delay_ms: u64 },
    /// Fetch the generation's full status, once.
    FetchStatus,
    /// The status was retrieved: the job cycle is complete.
    Done,
    /// Stop: the job cycle failed.
    GiveUp { failure: PollFailure },
}

/// Where the poller stands.
#[derive(Debug, Clone, Copy, PartialEq, Eq, Structural)]
pub enum Phase {
    Polling,
    Ready,
    Retrieved,
    Stopped,
}

/// Bounds and pacing of the polling loop.
#[derive(Debug, Clone, Copy, PartialEq, Eq, Structural)]
pub struct PollPolicy {
    /// Most check calls made for one generation.
    pub max_attempts: u32,
    /// Most transport failures in a row that are retried.
    pub max_transient_errors: u32,
    /// Pause between two check calls.
    pub interval_ms: u64,
}

/// State of the completion-polling loop for one generation.
#[derive(Debug, Clone, Copy, PartialEq, Eq, Structural)]
pub struct Poller {
    pub policy: PollPolicy,
    /// Check calls whose outcome has been handed in.
    pub attempts: u32,
    /// Transport failures since the last readable check.
    pub transient_errors: u32,
    pub phase: Phase,
}

/// The outcome a check body decodes to, given its `finished` and `faulted`
/// members: a fault ends polling, `finished == 1` is completion, any other
/// count is not, and a missing or non-integer indicator is unreadable.
pub open spec fn check_outcome_of(finished: Option<u64>, faulted: Option<bool>) -> CheckOutcome {
    if faulted == Some(true) {
        CheckOutcome::Faulted
    } else {
        match finished {
            Some(n) => if n == 1 { CheckOutcome::Finished } else { CheckOutcome::Pending },
            None => CheckOutcome::Malformed,
        }
    }
}

/// Decides a check response from its `finished` and `faulted` members.
pub fn classify_check(finished: Option<u64>, faulted: Option<bool>) -> (r: CheckOutcome)
    ensures
        r == check_outcome_of(finished, faulted),
{
    match faulted {
        Some(true) => CheckOutcome::Faulted,
        _ => match finished {
            Some(n) => if n == 1 { CheckOutcome::Finished } else { CheckOutcome::Pending },
            None => CheckOutcome::Malformed,
        },
    }
}

/// Decodes the body of a check response. Text that is not JSON is `Malformed`;
/// JSON text is decided by its `finished` and `faulted` members. Decoding never
/// reports a transport failure.
pub fn decode_check(body: &str) -> (r: CheckOutcome)
    ensures
        !parses_as_json(body@) ==> r == CheckOutcome::Malformed,
        parses_as_json(body@) ==> r == check_outcome_of(
            json_u64_member(body@, "finished"@),
            json_bool_member(body@, "faulted"@),
        ),
        r != CheckOutcome::TransportError,
{
    match parse_json(body) {
        Err(_) => CheckOutcome::Malformed,
        Ok(_) => {
            let finished = u64_member(body, "finished");
            let faulted = bool_member(body, "faulted");
            classify_check(finished, faulted)
        },
    }
}

impl PollPolicy {
    /// At least one check is allowed, a single transport failure is retried,
    /// and checks are paced.
    pub open spec fn wf(&self) -> bool {
        &&& self.max_attempts >= 1
        &&& self.max_transient_errors >= 1
        &&& self.interval_ms > 0
    }
}

/// The poller right after a successful submission.
pub open spec fn start(policy: PollPolicy) -> Poller {
    Poller { policy, attempts: 0, transient_errors: 0, phase: Phase::Polling }
}

/// The state and action that follow one check outcome while polling.
pub open spec fn step(s: Poller, o: CheckOutcome) -> (Poller, PollAction) {
    let attempts = (s.attempts + 1) as u32;
    let stop = |failure: PollFailure|
        (Poller { attempts, phase: Phase::Stopped, ..s }, PollAction::GiveUp { failure });
    match o {
        CheckOutcome::Finished => (
            Poller { attempts, phase: Phase::Ready, ..s },
            PollAction::FetchStatus,
        ),
        CheckOutcome::Faulted => stop(PollFailure::RemoteFault),
        CheckOutcome::Malformed => stop(PollFailure::Schema),
        CheckOutcome::Pending => if attempts >= s.policy.max_attempts {
            stop(PollFailure::Timeout)
        } else {
            (
                Poller { attempts, transient_errors: 0, ..s },
                PollAction::Check { delay_ms: s.policy.interval_ms },
            )
        },
        CheckOutcome::TransportError => {
            let errors = (s.transient_errors + 1) as u32;
            if s.transient_errors >= s.policy.max_transient_errors {
                (
                    Poller { attempts, phase: Phase::Stopped, ..s },
                    PollAction::GiveUp { failure: PollFailure::Request },
                )
            } else if attempts >= s.policy.max_attempts {
                (
                    Poller { attempts, transient_errors: errors, phase: Phase::Stopped, ..s },
                    PollAction::GiveUp { failure: PollFailure::Timeout },
                )
            } else {
                (
                    Poller { attempts, transient_errors: errors, ..s },
                    PollAction::Check { delay_ms: s.policy.interval_ms },
                )
            }
        },
    }
}

/// The state reached by handing in `outs` in order, stopping once polling ends.
pub open spec fn run(s: Poller, outs: Seq<CheckOutcome>) -> Poller
    decreases outs.len(),
{
    if outs.len() == 0 || s.phase != Phase::Polling {
        s
    } else {
        run(step(s, outs[0]).0, outs.drop_first())
    }
}

impl Poller {
    /// While polling, the counters stay under their bounds.
    pub open spec fn wf(&self) -> bool {
        &&& self.policy.wf()
        &&& self.attempts <= self.policy.max_attempts
        &&& self.phase == Phase::Polling ==> self.attempts < self.policy.max_attempts
    }

    /// Starts polling a freshly submitted generation; the first check may be
    /// made at once.
    pub fn new(policy: PollPolicy) -> (r: Poller)
        requires
            policy.wf(),
        ensures
            r == start(policy),
            r.wf(),
    {
        Poller { policy, attempts: 0, transient_errors: 0, phase: Phase::Polling }
    }

    /// Hands in the outcome of one check call and returns what to do next.
    pub fn on_check(&mut self, o: CheckOutcome) -> (r: PollAction)
        requires
            old(self).wf(),
            old(self).phase == Phase::Polling,
        ensures
            (*final(self), r) == step(*old(self), o),
            final(self).wf(),
            r is FetchStatus <==> o == CheckOutcome::Finished,
            final(self).phase == Phase::Ready <==> o == CheckOutcome::Finished,
    {
        let attempts = self.attempts + 1;
        self.attempts = attempts;
        match o {
            CheckOutcome::Finished => {
                self.phase = Phase::Ready;
                PollAction::FetchStatus
            },
            CheckOutcome::Faulted => {
                self.phase = Phase::Stopped;
                PollAction::GiveUp { failure: PollFailure::RemoteFault }
            },
            CheckOutcome::Malformed => {
                self.phase = Phase::Stopped;
                PollAction::GiveUp { failure: PollFailure::Schema }
            },
            CheckOutcome::Pending => {
                if attempts >= self.policy.max_attempts {
                    self.phase = Phase::Stopped;
                    PollAction::GiveUp { failure: PollFailure::Timeout }
                } else {
                    self.transient_errors = 0;
                    PollAction::Check { delay_ms: self.policy.interval_ms }
                }
            },
            CheckOutcome::TransportError => {
                if self.transient_errors >= self.policy.max_transient_errors {
                    self.phase = Phase::Stopped;
                    PollAction::GiveUp { failure: PollFailure::Request }
                } else if attempts >= self.policy.max_attempts {
                    self.transient_errors = self.transient_errors + 1;
                    self.phase = Phase::Stopped;
                    PollAction::GiveUp { failure: PollFailure::Timeout }
                } else {
                    self.transient_errors = self.transient_errors + 1;
                    PollAction::Check { delay_ms: self.policy.interval_ms }
                }
            },
        }
    }

    /// Records that the status was retrieved after completion was reported.
    pub fn on_status(&mut self) -> (r: PollAction)
        requires
            old(self).phase == Phase::Ready,
        ensures
            *final(self) == (Poller { phase: Phase::Retrieved, ..*old(self) }),
            r == PollAction::Done,
    {
        self.phase = Phase::Retrieved;
        PollAction::Done
    }
}

proof fn lemma_run_leaves_polling(s: Poller, outs: Seq<CheckOutcome>)
    requires
        s.wf(),
        s.phase == Phase::Polling,
        outs.len() >= s.policy.max_attempts - s.attempts,
    ensures
        run(s, outs).phase != Phase::Polling,
    decreases outs.len(),
{
    let n = step(s, outs[0]).0;
    assert(run(s, outs) == run(n, outs.drop_first()));
    if n.phase == Phase::Polling {
        lemma_run_leaves_polling(n, outs.drop_first());
    }
}

/// Polling always ends: whatever the check calls come back with, including
/// answers that never report completion, the poller has left the polling phase
/// (status to fetch, or given up) after at most `max_attempts` outcomes.
pub proof fn polling_ends_within_attempt_budget(policy: PollPolicy, outs: Seq<CheckOutcome>)
    requires
        policy.wf(),
        outs.len() >= policy.max_attempts,
    ensures
        run(start(policy), outs).phase != Phase::Polling,
{
    lemma_run_leaves_polling(start(policy), outs);
}

/// The status may be fetched only after a check has reported completion: if
/// handing in `outs` leads from polling to the ready phase, one of them was
/// `Finished`.
pub proof fn ready_only_after_completion(s: Poller, outs: Seq<CheckOutcome>)
    requires
        s.phase == Phase::Polling,
    ensures
        run(s, outs).phase == Phase::Ready ==> exists|i: int|
            0 <= i < outs.len() && outs[i] == CheckOutcome::Finished,
    decreases outs.len(),
{
    if outs.len() > 0 && outs[0] != CheckOutcome::Finished {
        let n = step(s, outs[0]).0;
        assert(run(s, outs) == run(n, outs.drop_first()));
        if n.phase == Phase::Polling {
            let rest = outs.drop_first();
            ready_only_after_completion(n, rest);
            if run(s, outs).phase == Phase::Ready {
                let i = choose|i: int| 0 <= i < rest.len() && rest[i] == CheckOutcome::Finished;
                assert(outs[i + 1] == CheckOutcome::Finished);
            }
        }
    } else if outs.len() > 0 {
        assert(outs[0] == CheckOutcome::Finished);
    }
}

/// An unreadable check response never aborts the cycle: handing in
/// `Malformed` (what `decode_check` gives for text that is not JSON) ends
/// polling with a schema failure.
pub proof fn malformed_check_is_schema_failure(s: Poller)
    ensures
        step(s, CheckOutcome::Malformed).1 == (PollAction::GiveUp { failure: PollFailure::Schema }),
        step(s, CheckOutcome::Malformed).0.phase == Phase::Stopped,
{
}

/// Transport failures are counted in a row: a readable pending check clears the
/// count, and a single failure after it is retried while attempts are left.
pub proof fn isolated_transport_error_is_retried(s: Poller)
    requires
        s.wf(),
        s.phase == Phase::Polling,
        s.attempts + 2 < s.policy.max_attempts,
    ensures
        step(s, CheckOutcome::Pending).0.transient_errors == 0,
        step(step(s, CheckOutcome::Pending).0, CheckOutcome::TransportError).1 == (PollAction::Check {
            delay_ms: s.policy.interval_ms,
        }),
{
}

/// A JSON check body without a readable `finished` count, and not reporting a
/// fault, is unreadable: it decodes to `Malformed`, never to a transport error
/// or to completion.
pub proof fn unreadable_finished_is_malformed(finished: Option<u64>, faulted: Option<bool>)
    requires
        finished is None,
        faulted != Some(true),
    ensures
        check_outcome_of(finished, faulted) == CheckOutcome::Malformed,
{
}

} // verus!
