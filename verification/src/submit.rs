//! The submission protocol: one request, sent and polled under a bounded
//! retry budget, as a state machine whose caller does the network work.
//!
//! The caller starts with [`begin`], performs a send, and hands what came
//! back to [`Attempt::on_send`]. Every answer is a [`Next`]: send again, poll,
//! or stop. The machine never talks to the network and never sleeps; it says
//! how long to wait before the step it asks for.

use vstd::prelude::*;

verus! {

/// Retries that the transport itself is allowed: none, the protocol owns
/// the retry policy.
pub const RPC_RETRIES: usize = 0;

/// Failed attempts after which the protocol still sends once more.
pub const GATEWAY_RETRIES: usize = 150;

/// Polls of the confirmation status within one attempt.
pub const CONFIRM_RETRIES: usize = 1;

/// Milliseconds to wait before a poll.
pub const CONFIRM_DELAY: u64 = 0;

/// Milliseconds to wait after an attempt that was neither confirmed nor
/// rejected.
pub const GATEWAY_DELAY: u64 = 300;

/// The fee payer must hold more than this many lamports (0.005 SOL).
pub const MIN_BALANCE: u64 = 5_000_000;

/// The identifier that the ledger gives a request it accepted for sending.
#[derive(Clone, Copy, Debug, PartialEq, Eq)]
pub struct RequestId {
    pub bytes: [u8; 64],
}

/// How far the ledger says a request has come.
#[derive(Clone, Copy, Debug, PartialEq, Eq)]
pub enum Commitment {
    Processed,
    Confirmed,
    Finalized,
}

/// What the ledger reports of one request when polled.
#[derive(Clone, Debug, PartialEq, Eq)]
pub struct TransactionStatus {
    /// The terminal error attached to the request, if there is one.
    pub err: Option<String>,
    pub commitment: Option<Commitment>,
}

/// The outcome of a poll, as far as the protocol cares.
#[derive(Clone, Debug, PartialEq, Eq)]
pub enum ConfirmationStatus {
    Pending,
    Confirmed,
    Rejected(String),
}

/// The ways a submission ends without success.
#[derive(Clone, Debug, PartialEq, Eq)]
pub enum SubmissionError {
    /// The fee payer's balance was at or below [`MIN_BALANCE`]; nothing was
    /// sent.
    InsufficientResource { balance: u64 },
    /// The ledger attached a terminal error to the request.
    RemoteRejection(String),
    /// Every attempt of the budget ended unconfirmed. Carries the last
    /// transport error seen, if any attempt failed that way.
    RetriesExhausted { last_error: Option<String> },
}

/// The state before a send: which attempt this is, and what has gone wrong
/// so far.
#[derive(Clone, Debug, PartialEq, Eq)]
pub struct Attempt {
    pub skip_confirmation: bool,
    /// The number of this attempt, counted from one.
    pub number: usize,
    /// The most recent transport error.
    pub last_error: Option<String>,
}

/// The state between a successful send and the end of its polls.
#[derive(Clone, Debug, PartialEq, Eq)]
pub struct Polling {
    pub attempt: Attempt,
    pub id: RequestId,
    /// Polls that this attempt may still make after the one now due.
    pub polls_left: usize,
}

/// What the caller does next.
#[derive(Debug, PartialEq, Eq)]
pub enum Next {
    /// Wait, send the request, and report to [`Attempt::on_send`].
    Send { delay_ms: u64, attempt: Attempt },
    /// Wait, poll the status of `polling.id`, and report to
    /// [`Polling::on_poll`].
    Poll { delay_ms: u64, polling: Polling },
    /// Wait, then stop with `result`, after `attempts` sends.
    Done { delay_ms: u64, attempts: usize, result: Result<RequestId, SubmissionError> },
}

/// What one reported status decides on its own: an error rejects, whatever
/// the commitment; otherwise only `Confirmed` and `Finalized` confirm.
pub open spec fn status_verdict(status: Option<TransactionStatus>) -> ConfirmationStatus {
    match status {
        None => ConfirmationStatus::Pending,
        Some(s) => match s.err {
            Some(e) => ConfirmationStatus::Rejected(e),
            None => match s.commitment {
                Some(Commitment::Confirmed) | Some(Commitment::Finalized) => ConfirmationStatus::Confirmed,
                _ => ConfirmationStatus::Pending,
            },
        },
    }
}

/// What a poll's answer decides: the verdict of the first status in it that
/// is not pending.
pub open spec fn poll_verdict(statuses: Seq<Option<TransactionStatus>>) -> ConfirmationStatus
    decreases statuses.len(),
{
    if statuses.len() == 0 {
        ConfirmationStatus::Pending
    } else {
        match status_verdict(statuses[0]) {
            ConfirmationStatus::Pending => poll_verdict(statuses.drop_first()),
            decided => decided,
        }
    }
}

/// The attempt that a submission starts with.
pub open spec fn first_attempt(skip_confirmation: bool) -> Attempt {
    Attempt { skip_confirmation, number: 1, last_error: None }
}

/// Whether a balance lookup lets the submission start: a balance that is
/// known must exceed [`MIN_BALANCE`]; one that could not be read passes.
pub open spec fn balance_suffices(balance: Option<u64>) -> bool {
    match balance {
        Some(b) => b > MIN_BALANCE,
        None => true,
    }
}

impl Attempt {
    /// The attempt number lies within the budget.
    pub open spec fn wf(self) -> bool {
        1 <= self.number <= GATEWAY_RETRIES + 1
    }

    /// The step after this attempt ended unconfirmed: the next attempt, or
    /// the end once the budget is spent. A new transport error replaces the
    /// recorded one.
    pub open spec fn retried(self, error: Option<String>) -> Next {
        let last_error = if error is Some {
            error
        } else {
            self.last_error
        };
        if self.number > GATEWAY_RETRIES {
            Next::Done {
                delay_ms: GATEWAY_DELAY,
                attempts: self.number,
                result: Err(SubmissionError::RetriesExhausted { last_error }),
            }
        } else {
            Next::Send {
                delay_ms: GATEWAY_DELAY,
                attempt: Attempt {
                    skip_confirmation: self.skip_confirmation,
                    number: (self.number + 1) as usize,
                    last_error,
                },
            }
        }
    }

    /// The step after a send came back with `result`.
    pub open spec fn after_send(self, result: Result<RequestId, String>) -> Next {
        match result {
            Err(e) => self.retried(Some(e)),
            Ok(id) => if self.skip_confirmation {
                Next::Done { delay_ms: 0, attempts: self.number, result: Ok(id) }
            } else if CONFIRM_RETRIES == 0 {
                self.retried(None)
            } else {
                Next::Poll {
                    delay_ms: CONFIRM_DELAY,
                    polling: Polling { attempt: self, id, polls_left: (CONFIRM_RETRIES - 1) as usize },
                }
            },
        }
    }

    fn retry(self, error: Option<String>) -> (next: Next)
        ensures
            next == self.retried(error),
    {
        let last_error = match error {
            Some(e) => Some(e),
            None => self.last_error,
        };
        if self.number > GATEWAY_RETRIES {
            Next::Done {
                delay_ms: GATEWAY_DELAY,
                attempts: self.number,
                result: Err(SubmissionError::RetriesExhausted { last_error }),
            }
        } else {
            Next::Send {
                delay_ms: GATEWAY_DELAY,
                attempt: Attempt {
                    skip_confirmation: self.skip_confirmation,
                    number: self.number + 1,
                    last_error,
                },
            }
        }
    }

    /// Takes the answer to this attempt's send. A transport failure is
    /// recorded and leads to the next attempt, or to `RetriesExhausted` when
    /// this was the last. A success ends the submission at once where
    /// confirmation is skipped, and starts the polls otherwise.
    pub fn on_send(self, result: Result<RequestId, String>) -> (next: Next)
        ensures
            next == self.after_send(result),
    {
        match result {
            Err(e) => self.retry(Some(e)),
            Ok(id) => {
                if self.skip_confirmation {
                    Next::Done { delay_ms: 0, attempts: self.number, result: Ok(id) }
                } else if CONFIRM_RETRIES == 0 {
                    self.retry(None)
                } else {
                    Next::Poll {
                        delay_ms: CONFIRM_DELAY,
                        polling: Polling { attempt: self, id, polls_left: CONFIRM_RETRIES - 1 },
                    }
                }
            },
        }
    }
}

impl Polling {
    /// The attempt is within the budget, and so are the polls left.
    pub open spec fn wf(self) -> bool {
        self.attempt.wf() && self.polls_left < CONFIRM_RETRIES
    }

    /// The step after a poll that decided nothing: the next poll while this
    /// attempt has one left, else what follows an unconfirmed attempt.
    pub open spec fn undecided(self, error: Option<String>) -> Next {
        if self.polls_left > 0 {
            Next::Poll {
                delay_ms: CONFIRM_DELAY,
                polling: Polling {
                    attempt: Attempt {
                        skip_confirmation: self.attempt.skip_confirmation,
                        number: self.attempt.number,
                        last_error: if error is Some {
                            error
                        } else {
                            self.attempt.last_error
                        },
                    },
                    id: self.id,
                    polls_left: (self.polls_left - 1) as usize,
                },
            }
        } else {
            self.attempt.retried(error)
        }
    }

    /// The step after a poll came back with `result`.
    pub open spec fn after_poll(self, result: Result<Seq<Option<TransactionStatus>>, String>) -> Next {
        match result {
            Err(e) => self.undecided(Some(e)),
            Ok(statuses) => match poll_verdict(statuses) {
                ConfirmationStatus::Rejected(e) => Next::Done {
                    delay_ms: 0,
                    attempts: self.attempt.number,
                    result: Err(SubmissionError::RemoteRejection(e)),
                },
                ConfirmationStatus::Confirmed => Next::Done {
                    delay_ms: 0,
                    attempts: self.attempt.number,
                    result: Ok(self.id),
                },
                ConfirmationStatus::Pending => self.undecided(None),
            },
        }
    }

    fn keep_waiting(self, error: Option<String>) -> (next: Next)
        ensures
            next == self.undecided(error),
    {
        if self.polls_left > 0 {
            let last_error = match error {
                Some(e) => Some(e),
                None => self.attempt.last_error,
            };
            Next::Poll {
                delay_ms: CONFIRM_DELAY,
                polling: Polling {
                    attempt: Attempt {
                        skip_confirmation: self.attempt.skip_confirmation,
                        number: self.attempt.number,
                        last_error,
                    },
                    id: self.id,
                    polls_left: self.polls_left - 1,
                },
            }
        } else {
            self.attempt.retry(error)
        }
    }

    /// Takes the answer to a poll. A terminal error ends the submission
    /// with `RemoteRejection` and is never retried; a confirmed or finalized
    /// status ends it with the request's identifier. Anything else, a
    /// transport failure included, leads to the next poll of this attempt
    /// or, when none is left, to a new send.
    pub fn on_poll(self, result: Result<Vec<Option<TransactionStatus>>, String>) -> (next: Next)
        ensures
            next == self.after_poll(
                match result {
                    Ok(statuses) => Ok(statuses@),
                    Err(e) => Err(e),
                },
            ),
    {
        match result {
            Err(e) => self.keep_waiting(Some(e)),
            Ok(statuses) => match judge(&statuses) {
                ConfirmationStatus::Rejected(e) => Next::Done {
                    delay_ms: 0,
                    attempts: self.attempt.number,
                    result: Err(SubmissionError::RemoteRejection(e)),
                },
                ConfirmationStatus::Confirmed => Next::Done {
                    delay_ms: 0,
                    attempts: self.attempt.number,
                    result: Ok(self.id),
                },
                ConfirmationStatus::Pending => self.keep_waiting(None),
            },
        }
    }
}

impl Next {
    /// The state held in this step is within the budget.
    pub open spec fn wf(self) -> bool {
        match self {
            Next::Send { attempt, .. } => attempt.wf(),
            Next::Poll { polling, .. } => polling.wf(),
            Next::Done { attempts, .. } => 1 <= attempts <= GATEWAY_RETRIES + 1,
        }
    }
}

/// Starts a submission with the balance check. `balance` is the fee payer's
/// balance in lamports, or `None` where it could not be read. Fails with
/// `InsufficientResource` exactly when a known balance is at or below
/// [`MIN_BALANCE`]; otherwise hands out the first attempt, to be sent without
/// delay.
pub fn begin(balance: Option<u64>, skip_confirmation: bool) -> (r: Result<Attempt, SubmissionError>)
    ensures
        balance_suffices(balance) ==> r == Ok::<Attempt, SubmissionError>(
            first_attempt(skip_confirmation),
        ),
        !balance_suffices(balance) ==> r == Err::<Attempt, SubmissionError>(
            SubmissionError::InsufficientResource { balance: balance.unwrap() },
        ),
{
    match balance {
        Some(b) if b <= MIN_BALANCE => Err(SubmissionError::InsufficientResource { balance: b }),
        _ => Ok(Attempt { skip_confirmation, number: 1, last_error: None }),
    }
}

/// Reads one reported status.
pub fn judge_status(status: &Option<TransactionStatus>) -> (verdict: ConfirmationStatus)
    ensures
        verdict == status_verdict(*status),
{
    match status {
        None => ConfirmationStatus::Pending,
        Some(s) => match &s.err {
            Some(e) => ConfirmationStatus::Rejected(e.clone()),
            None => match s.commitment {
                Some(Commitment::Confirmed) | Some(Commitment::Finalized) => ConfirmationStatus::Confirmed,
                _ => ConfirmationStatus::Pending,
            },
        },
    }
}

/// Reads the answer to a poll: the statuses are taken in order, and the
/// first that rejects or confirms decides.
pub fn judge(statuses: &Vec<Option<TransactionStatus>>) -> (verdict: ConfirmationStatus)
    ensures
        verdict == poll_verdict(statuses@),
{
    let mut i: usize = 0;
    assert(statuses@.skip(0) == statuses@);
    while i < statuses.len()
        invariant
            i <= statuses.len(),
            poll_verdict(statuses@) == poll_verdict(statuses@.skip(i as int)),
        decreases statuses.len() - i,
    {
        let verdict = judge_status(&statuses[i]);
        proof {
            let rest = statuses@.skip(i as int);
            assert(rest[0] == statuses@[i as int]);
            assert(rest.drop_first() == statuses@.skip(i + 1));
        }
        match verdict {
            ConfirmationStatus::Pending => {},
            decided => {
                return decided;
            },
        }
        i += 1;
    }
    assert(statuses@.skip(i as int).len() == 0);
    ConfirmationStatus::Pending
}

/// Where a submission stands after its first `errors.len()` sends all
/// failed in transport, with these errors in order.
pub open spec fn after_failures(skip_confirmation: bool, errors: Seq<String>) -> Next
    decreases errors.len(),
{
    if errors.len() == 0 {
        Next::Send { delay_ms: 0, attempt: first_attempt(skip_confirmation) }
    } else {
        match after_failures(skip_confirmation, errors.drop_last()) {
            Next::Send { attempt, .. } => attempt.after_send(Err(errors.last())),
            ended => ended,
        }
    }
}

/// A state within the budget is followed by one within the budget,
/// whatever the network answers.
pub proof fn lemma_steps_stay_within_budget(
    attempt: Attempt,
    sent: Result<RequestId, String>,
    polling: Polling,
    polled: Result<Seq<Option<TransactionStatus>>, String>,
)
    ensures
        attempt.wf() ==> attempt.after_send(sent).wf(),
        polling.wf() ==> polling.after_poll(polled).wf(),
{
}

/// The attempt counter goes up by exactly one with every new send: a step
/// that asks for a send asks for the attempt after the current one, and
/// only an attempt that was left unconfirmed leads there.
pub proof fn lemma_retry_counts_up(
    attempt: Attempt,
    sent: Result<RequestId, String>,
    polling: Polling,
    polled: Result<Seq<Option<TransactionStatus>>, String>,
)
    ensures
        attempt.after_send(sent) matches Next::Send { attempt: next, delay_ms } ==> {
            &&& next.number == attempt.number + 1
            &&& attempt.number <= GATEWAY_RETRIES
            &&& delay_ms == GATEWAY_DELAY
            &&& sent is Err || CONFIRM_RETRIES == 0
        },
        polling.after_poll(polled) matches Next::Send { attempt: next, delay_ms } ==> {
            &&& next.number == polling.attempt.number + 1
            &&& polling.attempt.number <= GATEWAY_RETRIES
            &&& delay_ms == GATEWAY_DELAY
            &&& polling.polls_left == 0
            &&& polled matches Ok(statuses) ==> poll_verdict(statuses) is Pending
        },
        attempt.after_send(sent) matches Next::Poll { polling: started, .. } ==> started.attempt
            == attempt,
        polling.after_poll(polled) matches Next::Poll { polling: resumed, .. } ==> {
            &&& resumed.attempt.number == polling.attempt.number
            &&& resumed.polls_left + 1 == polling.polls_left
        },
{
}

/// However many sends fail in transport, the submission ends within
/// `GATEWAY_RETRIES + 1` of them: up to that many failures leave it about to
/// send the next attempt, and the failure after that ends it with
/// `RetriesExhausted`, carrying that last error.
pub proof fn lemma_transport_failures_exhaust(skip_confirmation: bool, errors: Seq<String>)
    ensures
        errors.len() <= GATEWAY_RETRIES ==> (after_failures(skip_confirmation, errors) matches Next::Send {
            attempt,
            ..
        } && attempt.number == errors.len() + 1 && attempt.skip_confirmation == skip_confirmation),
        errors.len() > GATEWAY_RETRIES ==> after_failures(skip_confirmation, errors) == (Next::Done {
            delay_ms: GATEWAY_DELAY,
            attempts: (GATEWAY_RETRIES + 1) as usize,
            result: Err(
                SubmissionError::RetriesExhausted {
                    last_error: Some(errors[GATEWAY_RETRIES as int]),
                },
            ),
        }),
    decreases errors.len(),
{
    if errors.len() > 0 {
        lemma_transport_failures_exhaust(skip_confirmation, errors.drop_last());
    }
}

/// A terminal error seen by a poll ends the submission there, with
/// `RemoteRejection` and without another send, whichever attempt and poll
/// it was.
pub proof fn lemma_rejection_is_final(
    polling: Polling,
    statuses: Seq<Option<TransactionStatus>>,
    error: String,
)
    requires
        poll_verdict(statuses) == ConfirmationStatus::Rejected(error),
    ensures
        polling.after_poll(Ok(statuses)) == (Next::Done {
            delay_ms: 0,
            attempts: polling.attempt.number,
            result: Err(SubmissionError::RemoteRejection(error)),
        }),
{
}

} // verus!
