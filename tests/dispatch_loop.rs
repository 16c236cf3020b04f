use task_spammer::dispatch::{Dispatcher, Phase, DEFAULT_INTERVAL};
use task_spammer::submission::{FailureKind, SubmissionError, SubmissionOutcome, TxHash};

fn hash(tail: &[u8]) -> TxHash {
    let mut bytes = [0u8; 32];
    bytes[32 - tail.len()..].copy_from_slice(tail);
    TxHash { bytes }
}

fn failure(kind: FailureKind) -> SubmissionError {
    SubmissionError { kind, message: "stub failure".to_string() }
}

/// What the loop reported, one entry per tick that started a submission.
#[derive(Debug, PartialEq)]
enum Logged {
    Success(TxHash),
    Failure(FailureKind),
}

/// Runs the loop for the ticks at `1..=n` intervals, answering each
/// submission with the stub's next outcome.
fn run(d: &mut Dispatcher, n: u64, stub: &mut dyn FnMut(u64) -> SubmissionOutcome) -> Vec<Logged> {
    let mut log = Vec::new();
    for k in 1..=n {
        let now = k * d.interval;
        let name = format!("Task{}", k);
        if let Some(submitted) = d.tick(now, name.clone()) {
            assert_eq!(submitted, name);
            match d.complete(stub(k)) {
                Some(Ok(tx)) => log.push(Logged::Success(tx)),
                Some(Err(e)) => log.push(Logged::Failure(e.kind)),
                None => panic!("no submission was in flight"),
            }
        }
    }
    log
}

#[test]
fn new_loop_is_idle_and_waits_a_full_interval() {
    let mut d = Dispatcher::new(DEFAULT_INTERVAL);
    assert_eq!(DEFAULT_INTERVAL, 6);
    assert_eq!(d.phase, Phase::Idle);
    assert_eq!(d.next_due, 6);
    assert_eq!(d.tick(0, "A".to_string()), None);
    assert_eq!(d.tick(5, "A".to_string()), None);
    assert_eq!(d.submissions, 0);
    assert_eq!(d.tick(6, "A".to_string()), Some("A".to_string()));
    assert_eq!(d.phase, Phase::Dispatching);
    assert_eq!(d.next_due, 12);
}

#[test]
fn always_succeeding_stub_three_intervals() {
    let mut d = Dispatcher::new(1);
    let log = run(&mut d, 3, &mut |_| Ok(hash(&[0x0a, 0xbc])));
    let abc = hash(&[0x0a, 0xbc]);
    assert_eq!(log, vec![Logged::Success(abc), Logged::Success(abc), Logged::Success(abc)]);
    assert_eq!(d.submissions, 3);
    assert_eq!(d.successes, 3);
    assert_eq!(d.failures, 0);
    assert_eq!(d.phase, Phase::Idle);
}

#[test]
fn alternating_stub_four_intervals() {
    let mut d = Dispatcher::new(1);
    let mut stub = |k: u64| -> SubmissionOutcome {
        if k % 2 == 1 {
            Ok(hash(&[k as u8]))
        } else {
            Err(failure(FailureKind::Network))
        }
    };
    let log = run(&mut d, 4, &mut stub);
    assert_eq!(
        log,
        vec![
            Logged::Success(hash(&[1])),
            Logged::Failure(FailureKind::Network),
            Logged::Success(hash(&[3])),
            Logged::Failure(FailureKind::Network),
        ]
    );
    assert_eq!((d.successes, d.failures), (2, 2));
    // Still running: the next tick starts another submission.
    assert_eq!(d.tick(5, "Next".to_string()), Some("Next".to_string()));
}

#[test]
fn failure_does_not_halt_the_next_tick() {
    let mut d = Dispatcher::new(1);
    assert!(d.tick(1, "A".to_string()).is_some());
    let reported = d.complete(Err(failure(FailureKind::Network)));
    assert_eq!(reported.unwrap().unwrap_err().kind, FailureKind::Network);
    assert_eq!(d.phase, Phase::Idle);
    assert_eq!(d.tick(2, "B".to_string()), Some("B".to_string()));
}

#[test]
fn success_reports_the_stub_identifier() {
    let mut d = Dispatcher::new(1);
    let tx = hash(&[0xde, 0xad, 0xbe, 0xef]);
    assert!(d.tick(1, "A".to_string()).is_some());
    match d.complete(Ok(tx)) {
        Some(Ok(reported)) => assert_eq!(reported, tx),
        other => panic!("unexpected report: {:?}", other),
    }
}

#[test]
fn resolution_failure_is_handled_like_a_network_failure() {
    let mut a = Dispatcher::new(1);
    let mut b = Dispatcher::new(1);
    assert!(a.tick(1, "A".to_string()).is_some());
    assert!(b.tick(1, "A".to_string()).is_some());
    let ra = a.complete(Err(failure(FailureKind::Resolution)));
    let rb = b.complete(Err(failure(FailureKind::Network)));
    assert!(matches!(ra, Some(Err(_))));
    assert!(matches!(rb, Some(Err(_))));
    assert_eq!(
        (a.phase, a.next_due, a.submissions, a.successes, a.failures),
        (b.phase, b.next_due, b.submissions, b.successes, b.failures)
    );
    assert_eq!(a.tick(2, "B".to_string()), Some("B".to_string()));
}

#[test]
fn no_second_submission_while_one_is_in_flight() {
    let mut d = Dispatcher::new(2);
    assert!(d.tick(2, "A".to_string()).is_some());
    assert_eq!(d.tick(4, "B".to_string()), None);
    assert_eq!(d.tick(100, "C".to_string()), None);
    assert_eq!(d.submissions, 1);
    assert!(d.complete(Ok(hash(&[1]))).is_some());
    assert!(d.complete(Ok(hash(&[2]))).is_none());
    assert_eq!(d.successes, 1);
}

#[test]
fn missed_ticks_are_not_caught_up() {
    let mut d = Dispatcher::new(6);
    assert!(d.tick(6, "A".to_string()).is_some());
    // The submission took until time 40: several ticks were missed.
    assert!(d.complete(Ok(hash(&[1]))).is_some());
    assert!(d.tick(40, "B".to_string()).is_some());
    assert_eq!(d.next_due, 46);
    assert!(d.complete(Ok(hash(&[2]))).is_some());
    assert_eq!(d.tick(41, "C".to_string()), None);
    assert_eq!(d.tick(45, "C".to_string()), None);
    assert!(d.tick(46, "C".to_string()).is_some());
    assert_eq!(d.submissions, 3);
}

#[test]
fn late_tick_within_an_interval_keeps_the_schedule() {
    let mut d = Dispatcher::new(6);
    assert!(d.tick(8, "A".to_string()).is_some());
    assert_eq!(d.next_due, 12);
}

#[test]
fn clock_without_room_starts_nothing() {
    let mut d = Dispatcher::new(u64::MAX);
    assert_eq!(d.tick(u64::MAX, "A".to_string()), None);
    assert_eq!(d.phase, Phase::Idle);
    assert_eq!(d.submissions, 0);
}
