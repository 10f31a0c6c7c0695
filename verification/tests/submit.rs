use ore_miner::submit::{
    begin, judge, judge_status, Attempt, Commitment, ConfirmationStatus, Next, Polling, RequestId,
    SubmissionError, TransactionStatus, CONFIRM_DELAY, CONFIRM_RETRIES, GATEWAY_DELAY,
    GATEWAY_RETRIES, MIN_BALANCE, RPC_RETRIES,
};

/// What a scripted remote did while a submission ran against it.
struct Trace {
    sends: usize,
    polls: usize,
    waited_ms: u64,
    attempt_numbers: Vec<usize>,
    result: Result<RequestId, SubmissionError>,
    attempts: usize,
}

fn id(tag: u8) -> RequestId {
    RequestId { bytes: [tag; 64] }
}

fn status(err: Option<&str>, commitment: Option<Commitment>) -> Option<TransactionStatus> {
    Some(TransactionStatus { err: err.map(|e| e.to_string()), commitment })
}

/// Runs a submission against a remote that answers the `n`-th send with
/// `send(n)` and the `n`-th poll with `poll(n)`, both counted from one.
fn run(
    skip_confirmation: bool,
    send: impl Fn(usize) -> Result<RequestId, String>,
    poll: impl Fn(usize) -> Result<Vec<Option<TransactionStatus>>, String>,
) -> Trace {
    let mut trace = Trace {
        sends: 0,
        polls: 0,
        waited_ms: 0,
        attempt_numbers: Vec::new(),
        result: Err(SubmissionError::RetriesExhausted { last_error: None }),
        attempts: 0,
    };
    let first = begin(None, skip_confirmation).unwrap();
    let mut next = Next::Send { delay_ms: 0, attempt: first };
    loop {
        match next {
            Next::Send { delay_ms, attempt } => {
                trace.waited_ms += delay_ms;
                trace.sends += 1;
                trace.attempt_numbers.push(attempt.number);
                next = attempt.on_send(send(trace.sends));
            }
            Next::Poll { delay_ms, polling } => {
                trace.waited_ms += delay_ms;
                trace.polls += 1;
                next = polling.on_poll(poll(trace.polls));
            }
            Next::Done { delay_ms, attempts, result } => {
                trace.waited_ms += delay_ms;
                trace.attempts = attempts;
                trace.result = result;
                return trace;
            }
        }
    }
}

#[test]
fn the_constants_are_the_protocol_s() {
    assert_eq!(RPC_RETRIES, 0);
    assert_eq!(GATEWAY_RETRIES, 150);
    assert_eq!(CONFIRM_RETRIES, 1);
    assert_eq!(CONFIRM_DELAY, 0);
    assert_eq!(GATEWAY_DELAY, 300);
    assert_eq!(MIN_BALANCE, 5_000_000);
}

#[test]
fn balance_at_the_minimum_is_refused() {
    assert_eq!(
        begin(Some(MIN_BALANCE), false),
        Err(SubmissionError::InsufficientResource { balance: MIN_BALANCE })
    );
    assert_eq!(
        begin(Some(0), true),
        Err(SubmissionError::InsufficientResource { balance: 0 })
    );
}

#[test]
fn balance_above_the_minimum_starts_the_first_attempt() {
    assert_eq!(
        begin(Some(MIN_BALANCE + 1), false),
        Ok(Attempt { skip_confirmation: false, number: 1, last_error: None })
    );
    assert_eq!(
        begin(Some(u64::MAX), true),
        Ok(Attempt { skip_confirmation: true, number: 1, last_error: None })
    );
}

#[test]
fn unknown_balance_does_not_block() {
    assert_eq!(
        begin(None, false),
        Ok(Attempt { skip_confirmation: false, number: 1, last_error: None })
    );
}

#[test]
fn two_transport_failures_then_confirmed_on_the_third_send() {
    let trace = run(
        false,
        |n| if n <= 2 { Err(format!("timeout {}", n)) } else { Ok(id(7)) },
        |_| Ok(vec![status(None, Some(Commitment::Confirmed))]),
    );
    assert_eq!(trace.result, Ok(id(7)));
    assert_eq!(trace.attempts, 3);
    assert_eq!(trace.sends, 3);
    assert_eq!(trace.polls, 1);
    assert_eq!(trace.attempt_numbers, vec![1, 2, 3]);
    assert_eq!(trace.waited_ms, 2 * GATEWAY_DELAY);
}

#[test]
fn rejection_on_the_first_poll_is_not_retried() {
    let trace = run(
        false,
        |_| Ok(id(1)),
        |_| Ok(vec![status(Some("custom program error: 0x1"), None)]),
    );
    assert_eq!(
        trace.result,
        Err(SubmissionError::RemoteRejection("custom program error: 0x1".to_string()))
    );
    assert_eq!(trace.sends, 1);
    assert_eq!(trace.polls, 1);
    assert_eq!(trace.attempts, 1);
    assert_eq!(trace.waited_ms, 0);
}

#[test]
fn transport_failures_exhaust_the_budget() {
    let trace = run(false, |n| Err(format!("refused {}", n)), |_| Ok(vec![]));
    assert_eq!(
        trace.result,
        Err(SubmissionError::RetriesExhausted { last_error: Some("refused 151".to_string()) })
    );
    assert_eq!(trace.sends, GATEWAY_RETRIES + 1);
    assert_eq!(trace.attempts, GATEWAY_RETRIES + 1);
    assert_eq!(trace.polls, 0);
    let expected: Vec<usize> = (1..=GATEWAY_RETRIES + 1).collect();
    assert_eq!(trace.attempt_numbers, expected);
    assert_eq!(trace.waited_ms, (GATEWAY_RETRIES as u64 + 1) * GATEWAY_DELAY);
}

#[test]
fn a_request_that_stays_pending_is_sent_again_until_the_budget_ends() {
    let trace = run(
        false,
        |n| Ok(id(n as u8)),
        |_| Ok(vec![status(None, Some(Commitment::Processed))]),
    );
    assert_eq!(trace.result, Err(SubmissionError::RetriesExhausted { last_error: None }));
    assert_eq!(trace.sends, GATEWAY_RETRIES + 1);
    assert_eq!(trace.polls, (GATEWAY_RETRIES + 1) * CONFIRM_RETRIES);
}

#[test]
fn skipping_confirmation_returns_after_the_first_successful_send() {
    let trace = run(true, |n| if n == 1 { Err("busy".to_string()) } else { Ok(id(9)) }, |_| {
        Ok(vec![status(Some("never read"), None)])
    });
    assert_eq!(trace.result, Ok(id(9)));
    assert_eq!(trace.sends, 2);
    assert_eq!(trace.polls, 0);
    assert_eq!(trace.attempts, 2);
}

#[test]
fn a_failed_poll_counts_as_unconfirmed_and_is_recorded() {
    let trace = run(
        false,
        |_| Ok(id(3)),
        |n| {
            if n == 1 {
                Err("status lookup failed".to_string())
            } else {
                Ok(vec![status(None, Some(Commitment::Finalized))])
            }
        },
    );
    assert_eq!(trace.result, Ok(id(3)));
    assert_eq!(trace.sends, 2);
    assert_eq!(trace.polls, 2);
    assert_eq!(trace.attempts, 2);
}

#[test]
fn on_send_failure_asks_for_the_next_attempt_after_the_gateway_delay() {
    let attempt = Attempt { skip_confirmation: false, number: 4, last_error: None };
    assert_eq!(
        attempt.on_send(Err("down".to_string())),
        Next::Send {
            delay_ms: 300,
            attempt: Attempt {
                skip_confirmation: false,
                number: 5,
                last_error: Some("down".to_string())
            }
        }
    );
}

#[test]
fn on_send_failure_of_the_last_attempt_exhausts() {
    let attempt = Attempt {
        skip_confirmation: false,
        number: 151,
        last_error: Some("earlier".to_string()),
    };
    assert_eq!(
        attempt.on_send(Err("last".to_string())),
        Next::Done {
            delay_ms: 300,
            attempts: 151,
            result: Err(SubmissionError::RetriesExhausted { last_error: Some("last".to_string()) })
        }
    );
    let before_last = Attempt { skip_confirmation: false, number: 150, last_error: None };
    assert!(matches!(
        before_last.on_send(Err("x".to_string())),
        Next::Send { attempt: Attempt { number: 151, .. }, .. }
    ));
}

#[test]
fn on_send_success_starts_polling_without_delay() {
    let attempt = Attempt { skip_confirmation: false, number: 2, last_error: None };
    assert_eq!(
        attempt.clone().on_send(Ok(id(5))),
        Next::Poll { delay_ms: 0, polling: Polling { attempt, id: id(5), polls_left: 0 } }
    );
}

#[test]
fn on_poll_pending_keeps_the_last_transport_error() {
    let polling = Polling {
        attempt: Attempt {
            skip_confirmation: false,
            number: 1,
            last_error: Some("send hiccup".to_string()),
        },
        id: id(1),
        polls_left: 0,
    };
    assert_eq!(
        polling.on_poll(Ok(vec![None])),
        Next::Send {
            delay_ms: 300,
            attempt: Attempt {
                skip_confirmation: false,
                number: 2,
                last_error: Some("send hiccup".to_string())
            }
        }
    );
}

#[test]
fn on_poll_with_polls_left_polls_again() {
    let polling = Polling {
        attempt: Attempt { skip_confirmation: false, number: 3, last_error: None },
        id: id(2),
        polls_left: 2,
    };
    assert_eq!(
        polling.on_poll(Err("flaky".to_string())),
        Next::Poll {
            delay_ms: 0,
            polling: Polling {
                attempt: Attempt {
                    skip_confirmation: false,
                    number: 3,
                    last_error: Some("flaky".to_string())
                },
                id: id(2),
                polls_left: 1,
            }
        }
    );
}

#[test]
fn an_error_outweighs_a_commitment() {
    assert_eq!(
        judge_status(&status(Some("boom"), Some(Commitment::Finalized))),
        ConfirmationStatus::Rejected("boom".to_string())
    );
}

#[test]
fn only_confirmed_and_finalized_confirm() {
    assert_eq!(judge_status(&None), ConfirmationStatus::Pending);
    assert_eq!(judge_status(&status(None, None)), ConfirmationStatus::Pending);
    assert_eq!(
        judge_status(&status(None, Some(Commitment::Processed))),
        ConfirmationStatus::Pending
    );
    assert_eq!(
        judge_status(&status(None, Some(Commitment::Confirmed))),
        ConfirmationStatus::Confirmed
    );
    assert_eq!(
        judge_status(&status(None, Some(Commitment::Finalized))),
        ConfirmationStatus::Confirmed
    );
}

#[test]
fn the_first_decisive_status_of_a_poll_decides() {
    assert_eq!(judge(&vec![]), ConfirmationStatus::Pending);
    assert_eq!(
        judge(&vec![
            None,
            status(None, Some(Commitment::Processed)),
            status(None, Some(Commitment::Confirmed)),
            status(Some("late"), None),
        ]),
        ConfirmationStatus::Confirmed
    );
    assert_eq!(
        judge(&vec![None, status(Some("first"), None), status(None, Some(Commitment::Finalized))]),
        ConfirmationStatus::Rejected("first".to_string())
    );
}
