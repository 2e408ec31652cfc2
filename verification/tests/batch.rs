use chat_client::batch::{BatchReport, OutcomeKind, TaskOutcome};
use chat_client::transport::TransportError;

fn rejected(status: u16) -> TransportError {
    TransportError::ApiRejected { status, body: "no".to_string() }
}

#[test]
fn a_new_report_has_every_request_pending() {
    let report = BatchReport::new(3);
    assert_eq!(report.len(), 3);
    assert_eq!(report.pending(), 3);
    assert_eq!(report.succeeded(), 0);
    assert_eq!(report.failed(), 0);
    assert!(!report.is_complete());
    assert_eq!(report.first_failure(), None);
    assert!(matches!(report.outcome(0), Some(TaskOutcome::Pending)));
    assert!(matches!(report.outcome(2), Some(TaskOutcome::Pending)));
    assert!(report.outcome(3).is_none());
}

#[test]
fn an_empty_batch_is_complete() {
    let report = BatchReport::new(0);
    assert_eq!(report.len(), 0);
    assert!(report.is_complete());
    assert_eq!(report.first_failure(), None);
    assert!(report.outcome(0).is_none());
}

#[test]
fn a_failure_leaves_the_other_requests_as_they_are() {
    let mut report = BatchReport::new(4);
    assert!(report.succeed(0));
    assert!(report.fail(2, rejected(500)));
    assert!(matches!(report.outcome(0), Some(TaskOutcome::Succeeded)));
    assert!(matches!(report.outcome(1), Some(TaskOutcome::Pending)));
    assert!(matches!(report.outcome(3), Some(TaskOutcome::Pending)));
    match report.outcome(2) {
        Some(TaskOutcome::Failed(error)) => assert_eq!(*error, rejected(500)),
        other => panic!("unexpected outcome {:?}", other),
    }
    assert_eq!((report.pending(), report.succeeded(), report.failed()), (2, 1, 1));
    assert!(!report.is_complete());
    assert!(report.succeed(1));
    assert!(report.succeed(3));
    assert_eq!((report.pending(), report.succeeded(), report.failed()), (0, 3, 1));
    assert!(report.is_complete());
    assert_eq!(report.first_failure(), Some(2));
}

#[test]
fn a_request_is_settled_once() {
    let mut report = BatchReport::new(2);
    assert!(report.fail(1, TransportError::MalformedResponse));
    assert!(!report.succeed(1));
    assert!(!report.fail(1, rejected(429)));
    match report.outcome(1) {
        Some(TaskOutcome::Failed(error)) => assert_eq!(*error, TransportError::MalformedResponse),
        other => panic!("unexpected outcome {:?}", other),
    }
    assert!(report.succeed(0));
    assert!(!report.fail(0, rejected(429)));
    assert!(matches!(report.outcome(0), Some(TaskOutcome::Succeeded)));
}

#[test]
fn a_request_that_is_not_in_the_batch_is_not_settled() {
    let mut report = BatchReport::new(2);
    assert!(!report.succeed(2));
    assert!(!report.fail(usize::MAX, rejected(429)));
    assert_eq!(report.pending(), 2);
}

#[test]
fn the_first_failure_is_the_one_at_the_lowest_place() {
    let mut report = BatchReport::new(5);
    assert!(report.fail(3, rejected(503)));
    assert_eq!(report.first_failure(), Some(3));
    assert!(report.fail(1, TransportError::NetworkError { reason: "refused".to_string() }));
    assert_eq!(report.first_failure(), Some(1));
    assert!(report.succeed(0));
    assert_eq!(report.first_failure(), Some(1));
    assert_eq!((report.pending(), report.succeeded(), report.failed()), (2, 1, 2));
}

#[test]
fn outcomes_are_counted_by_kind() {
    let mut report = BatchReport::new(6);
    assert!(report.succeed(5));
    assert!(report.succeed(0));
    assert!(report.fail(4, rejected(400)));
    assert_eq!(report.count(OutcomeKind::Pending), 3);
    assert_eq!(report.count(OutcomeKind::Succeeded), 2);
    assert_eq!(report.count(OutcomeKind::Failed), 1);
    assert_eq!(report.pending() + report.succeeded() + report.failed(), report.len());
    assert_eq!(report.outcome(4).unwrap().kind(), OutcomeKind::Failed);
    assert_eq!(report.outcome(5).unwrap().kind(), OutcomeKind::Succeeded);
    assert_eq!(report.outcome(1).unwrap().kind(), OutcomeKind::Pending);
}
