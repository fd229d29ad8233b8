use orcamento_api::bridge::{flatten, resolve, BridgeError, Delivery, Dispatch, Phase, WorkEvent};
use orcamento_api::errors::{ApiError, ErrorKind};

fn is_pending<T, E>(delivery: &Delivery<T, E>) -> bool {
    matches!(delivery, Delivery::Pending)
}

fn is_ignored<T, E>(delivery: &Delivery<T, E>) -> bool {
    matches!(delivery, Delivery::Ignored)
}

#[test]
fn work_is_queued_and_awaited_at_first() {
    let d = Dispatch::new();
    assert_eq!(d.phase, Phase::Queued);
    assert!(d.awaited);
}

#[test]
fn work_that_returns_is_delivered() {
    let mut d = Dispatch::new();
    assert!(is_pending(&d.step::<u32, String>(WorkEvent::Started)));
    assert_eq!(d.phase, Phase::Running);
    match d.step::<u32, String>(WorkEvent::Returned(Ok(7))) {
        Delivery::Deliver(result) => assert_eq!(result, Ok(7)),
        _ => panic!("not delivered"),
    }
    assert_eq!(d.phase, Phase::Finished);
}

#[test]
fn work_that_fails_is_delivered_with_its_own_error() {
    let mut d = Dispatch::new();
    d.step::<u32, String>(WorkEvent::Started);
    match d.step::<u32, String>(WorkEvent::Returned(Err("no row".to_string()))) {
        Delivery::Deliver(result) => {
            assert_eq!(result, Err(BridgeError::Inner("no row".to_string())))
        }
        _ => panic!("not delivered"),
    }
}

#[test]
fn work_that_panics_is_delivered_as_worker_panicked() {
    let mut d = Dispatch::new();
    d.step::<u32, ApiError>(WorkEvent::Started);
    match d.step::<u32, ApiError>(WorkEvent::Panicked) {
        Delivery::Deliver(result) => {
            assert_eq!(result, Err(BridgeError::WorkerPanicked));
            let flat = flatten(result).unwrap_err();
            assert_eq!(flat.kind(), ErrorKind::InternalFailure);
            assert_eq!(flat, ApiError::InternalFailure("Internal server error".into()));
        }
        _ => panic!("not delivered"),
    }
    assert_eq!(d.phase, Phase::Finished);
}

#[test]
fn work_starts_at_most_once() {
    let mut d = Dispatch::new();
    assert!(is_pending(&d.step::<u32, String>(WorkEvent::Started)));
    assert!(is_ignored(&d.step::<u32, String>(WorkEvent::Started)));
    assert_eq!(d.phase, Phase::Running);
    d.step::<u32, String>(WorkEvent::Returned(Ok(1)));
    assert!(is_ignored(&d.step::<u32, String>(WorkEvent::Started)));
    assert_eq!(d.phase, Phase::Finished);
}

#[test]
fn work_ends_at_most_once() {
    let mut d = Dispatch::new();
    d.step::<u32, String>(WorkEvent::Started);
    d.step::<u32, String>(WorkEvent::Returned(Ok(1)));
    assert!(is_ignored(&d.step::<u32, String>(WorkEvent::Returned(Ok(2)))));
    assert!(is_ignored(&d.step::<u32, String>(WorkEvent::Panicked)));
    assert_eq!(d.phase, Phase::Finished);
}

#[test]
fn work_cannot_end_before_it_started() {
    let mut d = Dispatch::new();
    assert!(is_ignored(&d.step::<u32, String>(WorkEvent::Returned(Ok(1)))));
    assert!(is_ignored(&d.step::<u32, String>(WorkEvent::Panicked)));
    assert_eq!(d.phase, Phase::Queued);
}

#[test]
fn a_caller_that_goes_away_does_not_stop_the_work() {
    let mut d = Dispatch::new();
    d.step::<u32, String>(WorkEvent::Started);
    assert!(is_pending(&d.step::<u32, String>(WorkEvent::CallerGone)));
    assert_eq!(d.phase, Phase::Running);
    assert!(!d.awaited);
    assert!(matches!(d.step::<u32, String>(WorkEvent::Returned(Ok(1))), Delivery::Discard));
    assert_eq!(d.phase, Phase::Finished);
}

#[test]
fn a_caller_that_goes_away_before_the_start_still_lets_the_work_run() {
    let mut d = Dispatch::new();
    assert!(is_pending(&d.step::<u32, String>(WorkEvent::CallerGone)));
    assert!(is_ignored(&d.step::<u32, String>(WorkEvent::CallerGone)));
    assert_eq!(d.phase, Phase::Queued);
    assert!(is_pending(&d.step::<u32, String>(WorkEvent::Started)));
    assert!(matches!(d.step::<u32, String>(WorkEvent::Panicked), Delivery::Discard));
}

#[test]
fn resolve_reads_what_a_worker_left() {
    assert_eq!(resolve::<u32, String>(Some(Ok(3))), Ok(3));
    assert_eq!(
        resolve::<u32, String>(Some(Err("e".to_string()))),
        Err(BridgeError::Inner("e".to_string()))
    );
    assert_eq!(resolve::<u32, String>(None), Err(BridgeError::WorkerPanicked));
}

#[test]
fn flatten_lets_outward_errors_through() {
    assert_eq!(flatten::<u32>(Ok(3)), Ok(3));
    let not_found = ApiError::NotFound("User x not found".into());
    assert_eq!(flatten::<u32>(Err(BridgeError::Inner(not_found.clone()))), Err(not_found));
    assert_eq!(flatten::<u32>(Err(BridgeError::WorkerPanicked)), Err(ApiError::internal()));
}
