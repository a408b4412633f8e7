use assert_unmoved::AddressViolation;
use assert_unmoved::AssertUnmoved;
use assert_unmoved::GuardState;
use assert_unmoved::ViolationCause;
use futures_core::future::Future;
use futures_core::task::Context;
use futures_core::task::Poll;
use futures_util::future::pending;
use futures_util::task::noop_waker;
use std::pin::Pin;

fn require_send_sync<T: Send + Sync>() {}

#[test]
fn assert_send_sync() {
    require_send_sync::<AssertUnmoved<()>>();
}

#[test]
fn dont_panic_when_not_polled() {
    // This shouldn't panic.
    let future = AssertUnmoved::new(pending::<()>());
    drop(future);
}

#[test]
fn finalize_without_resume_is_clean() {
    // Never resumed: the finalize check passes wherever the guard sits.
    let guard = AssertUnmoved::new(pending::<()>());
    let a1: usize = 0x1000;
    let a2: usize = 0x2000;
    assert_eq!(guard.check_finalize(a1, false), Ok(()));
    assert_eq!(guard.check_finalize(a2, false), Ok(()));
}

#[test]
fn resume_and_finalize_in_place() {
    let mut guard = AssertUnmoved::new(pending::<()>());
    let a: usize = 0x4000;
    assert_eq!(guard.check_resume(a), Ok(()));
    assert_eq!(guard.check_finalize(a, false), Ok(()));
}

#[test]
fn relocated_between_resumes_raises_once() {
    let waker = noop_waker();
    let mut cx = Context::from_waker(&waker);
    let first: usize = 0x1000;
    let second: usize = 0x2000;

    let mut guard = AssertUnmoved::new(pending::<()>());
    // First activation on one storage location: the check passes, and the
    // computation, resumed right after, reports itself still suspended.
    assert_eq!(guard.check_resume(first), Ok(()));
    // Resumed again after relocation: the violation is raised.
    assert_eq!(
        guard.check_resume(second),
        Err(AddressViolation { cause: ViolationCause::BetweenActivations })
    );
    // No later check on the same guard raises a second failure.
    assert_eq!(guard.check_resume(second), Ok(()));
    assert_eq!(guard.check_finalize(second, false), Ok(()));
    // The wrapped computation was never touched: it is still suspended.
    let mut inner = guard.into_inner();
    assert_eq!(Pin::new(&mut inner).poll(&mut cx), Poll::Pending);
}

#[test]
fn relocated_before_finalize_raises() {
    let mut guard = AssertUnmoved::new(pending::<()>());
    let a: usize = 0x3000;
    let b: usize = 0x3008;
    assert_eq!(guard.check_resume(a), Ok(()));
    assert_eq!(
        guard.check_finalize(b, false),
        Err(AddressViolation { cause: ViolationCause::BeforeFinalization })
    );
}

#[test]
fn no_second_failure_during_unwinding() {
    let mut guard = AssertUnmoved::new(pending::<()>());
    let a: usize = 0x5000;
    let b: usize = 0x6000;
    assert_eq!(guard.check_resume(a), Ok(()));
    // The surrounding execution is already failing for an unrelated reason:
    // the finalize check is skipped even though the guard has been relocated.
    assert_eq!(guard.check_finalize(b, true), Ok(()));
}

#[test]
fn transparent_when_unmoved() {
    let mut guard = AssertUnmoved::new(pending::<()>());
    let a: usize = 0x7000;
    let mut i: usize = 0;
    while i < 10 {
        assert_eq!(guard.check_resume(a), Ok(()));
        i += 1;
    }
    assert_eq!(guard.check_finalize(a, false), Ok(()));
}

#[test]
fn state_machine_pins_first_address() {
    let mut s = GuardState::Unstarted;
    assert_eq!(s.on_resume(0x10), Ok(()));
    assert_eq!(s, GuardState::Pinned { addr: 0x10 });
    assert_eq!(s.on_resume(0x10), Ok(()));
    assert_eq!(s, GuardState::Pinned { addr: 0x10 });
}

#[test]
fn state_machine_violation_is_absorbing() {
    let mut s = GuardState::Unstarted;
    assert_eq!(s.on_resume(0x10), Ok(()));
    assert_eq!(
        s.on_resume(0x18),
        Err(AddressViolation { cause: ViolationCause::BetweenActivations })
    );
    assert_eq!(s, GuardState::Violated { addr: 0x10 });
    // Back at the originally pinned address, at a fresh address, finalizing:
    // nothing raises a second violation.
    assert_eq!(s.on_resume(0x10), Ok(()));
    assert_eq!(s.on_resume(0x20), Ok(()));
    assert_eq!(s.on_finalize(0x20, false), Ok(()));
    assert_eq!(s, GuardState::Violated { addr: 0x10 });
}

#[test]
fn finalize_check_on_unstarted_state() {
    let s = GuardState::Unstarted;
    assert_eq!(s.on_finalize(0x30, false), Ok(()));
    assert_eq!(s.on_finalize(0x30, true), Ok(()));
}

#[test]
fn violation_messages() {
    let between = AddressViolation { cause: ViolationCause::BetweenActivations };
    let before = AddressViolation { cause: ViolationCause::BeforeFinalization };
    assert_eq!(between.message(), "Future moved between poll calls");
    assert_eq!(before.message(), "Future moved before drop");
}

#[test]
fn into_inner_returns_the_computation() {
    let guard = AssertUnmoved::new(42u64);
    assert_eq!(guard.into_inner(), 42u64);
}
