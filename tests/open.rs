use socketcan::{CreateFlags, FailureKind, OpenAction, OpenSequence, OpenStage, OsError};

fn err(code: i32) -> OsError {
    OsError { kind: FailureKind::Other, code: Some(code) }
}

#[test]
fn create_flags_always_cloexec() {
    let (_, a) = OpenSequence::start(false, false);
    assert_eq!(a, OpenAction::Create(CreateFlags { cloexec: true, nonblock: false }));
    let (_, a) = OpenSequence::start(true, true);
    assert_eq!(a, OpenAction::Create(CreateFlags { cloexec: true, nonblock: true }));
}

#[test]
fn classic_open_succeeds_after_bind() {
    let (mut s, _) = OpenSequence::start(false, false);
    assert_eq!(s.step(Ok(())), OpenAction::Bind);
    assert!(s.holds_fd);
    assert_eq!(s.step(Ok(())), OpenAction::Done);
    assert_eq!(s.stage, OpenStage::Ready);
    assert!(s.holds_fd);
}

#[test]
fn fd_open_enables_fd_mode() {
    let (mut s, _) = OpenSequence::start(true, false);
    assert_eq!(s.step(Ok(())), OpenAction::Bind);
    assert_eq!(s.step(Ok(())), OpenAction::EnableFd);
    assert_eq!(s.step(Ok(())), OpenAction::Done);
    assert_eq!(s.stage, OpenStage::Ready);
}

#[test]
fn fd_mode_failure_closes_descriptor() {
    let (mut s, _) = OpenSequence::start(true, true);
    s.step(Ok(()));
    s.step(Ok(()));
    let e = err(libc::ENOPROTOOPT);
    assert_eq!(s.step(Err(e)), OpenAction::CloseAndFail(e));
    assert_eq!(s.stage, OpenStage::Failed);
    assert!(!s.holds_fd);
}

#[test]
fn bind_failure_closes_descriptor() {
    let (mut s, _) = OpenSequence::start(false, false);
    s.step(Ok(()));
    let e = err(libc::ENODEV);
    assert_eq!(s.step(Err(e)), OpenAction::CloseAndFail(e));
    assert!(!s.holds_fd);
}

#[test]
fn create_failure_has_nothing_to_close() {
    let (mut s, _) = OpenSequence::start(true, false);
    let e = err(libc::EAFNOSUPPORT);
    assert_eq!(s.step(Err(e)), OpenAction::Fail(e));
    assert_eq!(s.stage, OpenStage::Failed);
    assert!(!s.holds_fd);
}
