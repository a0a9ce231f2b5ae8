use socketcan::{
    after_poll, insist_step, poll_timeout_ms, ExactRead, FailureKind, InsistStep, OsError,
    ReadStep, ShouldRetry, EAGAIN, EINPROGRESS,
};

fn os(kind: FailureKind, code: i32) -> OsError {
    OsError { kind, code: Some(code) }
}

#[test]
fn classifier_flags_would_block_codes() {
    assert!(OsError { kind: FailureKind::WouldBlock, code: None }.should_retry());
    assert!(os(FailureKind::WouldBlock, EAGAIN).should_retry());
    assert!(os(FailureKind::Other, EAGAIN).should_retry());
    assert!(os(FailureKind::Other, EINPROGRESS).should_retry());
    assert!(!os(FailureKind::Other, libc::EPERM).should_retry());
    assert!(!os(FailureKind::Other, libc::ENODEV).should_retry());
    assert!(!OsError::timed_out().should_retry());
    assert!(!OsError::unexpected_eof().should_retry());
    assert!(!OsError::protocol_violation().should_retry());
    assert!(!os(FailureKind::Interrupted, libc::EINTR).should_retry());
}

#[test]
fn classifier_on_results() {
    let ok: Result<u8, OsError> = Ok(3);
    assert!(!ok.should_retry());
    let busy: Result<u8, OsError> = Err(os(FailureKind::WouldBlock, EAGAIN));
    assert!(busy.should_retry());
    let hard: Result<u8, OsError> = Err(os(FailureKind::Other, libc::ENXIO));
    assert!(!hard.should_retry());
}

#[test]
fn exact_read_completes_in_pieces() {
    let mut r = ExactRead::new(16);
    assert_eq!(r.remaining(), 16);
    assert!(matches!(r.advance(Ok(10)), ReadStep::Again));
    assert_eq!(r.filled, 10);
    assert_eq!(r.remaining(), 6);
    assert!(matches!(r.advance(Err(os(FailureKind::Interrupted, libc::EINTR))), ReadStep::Again));
    assert_eq!(r.filled, 10);
    assert!(matches!(r.advance(Ok(6)), ReadStep::Complete));
    assert_eq!(r.filled, 16);
    assert_eq!(r.remaining(), 0);
}

#[test]
fn exact_read_at_once() {
    let mut r = ExactRead::new(16);
    assert!(matches!(r.advance(Ok(16)), ReadStep::Complete));
    assert_eq!(r.filled, 16);
}

#[test]
fn exact_read_of_nothing_is_complete() {
    let mut r = ExactRead::new(0);
    assert!(matches!(r.advance(Ok(0)), ReadStep::Complete));
}

#[test]
fn exact_read_running_dry_is_unexpected_eof() {
    let mut r = ExactRead::new(16);
    assert!(matches!(r.advance(Ok(4)), ReadStep::Again));
    match r.advance(Ok(0)) {
        ReadStep::Failed(e) => assert_eq!(e.kind, FailureKind::UnexpectedEof),
        other => panic!("unexpected step {:?}", other),
    }
    assert_eq!(r.filled, 4);
}

#[test]
fn exact_read_passes_hard_failures_on() {
    let mut r = ExactRead::new(16);
    let e = os(FailureKind::Other, libc::ENETDOWN);
    match r.advance(Err(e)) {
        ReadStep::Failed(got) => assert_eq!(got, e),
        other => panic!("unexpected step {:?}", other),
    }
    assert_eq!(r.filled, 0);
}

#[test]
fn poll_with_nothing_ready_times_out() {
    let r = after_poll(Ok(0));
    assert_eq!(r, Err(OsError { kind: FailureKind::TimedOut, code: None }));
    assert_eq!(after_poll(Ok(1)), Ok(()));
    let e = os(FailureKind::Other, libc::EBADF);
    assert_eq!(after_poll(Err(e)), Err(e));
}

#[test]
fn poll_timeout_is_bounded_and_never_infinite() {
    assert_eq!(poll_timeout_ms(0), 0);
    assert_eq!(poll_timeout_ms(100), 100);
    assert_eq!(poll_timeout_ms(i32::MAX as u128), i32::MAX);
    assert_eq!(poll_timeout_ms(i32::MAX as u128 + 1), i32::MAX);
    assert_eq!(poll_timeout_ms(u64::MAX as u128 * 1000), i32::MAX);
    assert_eq!(poll_timeout_ms(std::time::Duration::from_millis(250).as_millis()), 250);
}

#[test]
fn insist_retries_while_saturated_then_succeeds() {
    let busy = os(FailureKind::WouldBlock, EAGAIN);
    let attempts = [Err(busy), Err(busy), Err(os(FailureKind::Other, EINPROGRESS)), Ok(())];
    let mut finished = None;
    let mut tries = 0;
    for a in attempts.iter() {
        tries += 1;
        match insist_step(*a) {
            InsistStep::Retry => continue,
            InsistStep::Finish(r) => {
                finished = Some(r);
                break;
            }
        }
    }
    assert_eq!(tries, 4);
    assert_eq!(finished, Some(Ok(())));
}

#[test]
fn insist_stops_on_hard_failure() {
    let hard = os(FailureKind::Other, libc::ENOBUFS);
    assert!(matches!(insist_step(Err(hard)), InsistStep::Finish(Err(e)) if e == hard));
    assert!(matches!(insist_step(Ok(())), InsistStep::Finish(Ok(()))));
    assert!(matches!(
        insist_step(Err(OsError { kind: FailureKind::WouldBlock, code: None })),
        InsistStep::Retry
    ));
}
