use vstd::prelude::*;

use crate::violation::AddressViolation;
use crate::violation::ViolationCause;

verus! {

/// The lifecycle of one guard: not yet activated, pinned to the storage
/// address observed at its first activation, or already found relocated.
#[derive(Clone, Copy, Debug, PartialEq, Eq, Structural)]
pub enum GuardState {
    /// No resume has completed its check yet; relocation is still legal.
    Unstarted,
    /// The first resume observed the guard at `addr`; every later check
    /// must observe the same address.
    Pinned { addr: usize },
    /// A check already observed the guard away from `addr`; the one
    /// violation for this guard has been raised.
    Violated { addr: usize },
}

impl GuardState {
    /// The address captured at first activation, if one has been captured.
    pub open spec fn observed(self) -> Option<usize> {
        match self {
            GuardState::Unstarted => None,
            GuardState::Pinned { addr } => Some(addr),
            GuardState::Violated { addr } => Some(addr),
        }
    }
}

/// The state a guard moves to when a resume call finds it at `cur_addr`:
/// the first resume pins that address, a resume at the pinned address keeps
/// it, a resume elsewhere marks the guard violated, and a violated guard
/// stays violated.
pub open spec fn resume_transition(s: GuardState, cur_addr: usize) -> GuardState {
    match s {
        GuardState::Unstarted => GuardState::Pinned { addr: cur_addr },
        GuardState::Pinned { addr } => if cur_addr == addr {
            s
        } else {
            GuardState::Violated { addr }
        },
        GuardState::Violated { .. } => s,
    }
}

/// What a resume call raises when it finds the guard at `cur_addr`: a
/// violation exactly when the guard is pinned to a different address.
/// A guard already violated raises nothing further.
pub open spec fn resume_check(s: GuardState, cur_addr: usize) -> Result<(), AddressViolation> {
    match s {
        GuardState::Pinned { addr } => if cur_addr == addr {
            Ok(())
        } else {
            Err(AddressViolation { cause: ViolationCause::BetweenActivations })
        },
        _ => Ok(()),
    }
}

/// What the terminal finalize step raises when it finds the guard at
/// `cur_addr`. While the surrounding execution is already unwinding from an
/// unrelated failure the check is skipped entirely; otherwise a violation is
/// raised exactly when the guard is pinned to a different address.
pub open spec fn finalize_check(s: GuardState, cur_addr: usize, unwinding: bool) -> Result<
    (),
    AddressViolation,
> {
    if unwinding {
        Ok(())
    } else {
        match s {
            GuardState::Pinned { addr } => if cur_addr == addr {
                Ok(())
            } else {
                Err(AddressViolation { cause: ViolationCause::BeforeFinalization })
            },
            _ => Ok(()),
        }
    }
}

impl GuardState {
    /// One resume step of the state machine: capture the address on first
    /// activation, validate it afterwards, and report a relocation found
    /// between activations.
    pub fn on_resume(&mut self, cur_addr: usize) -> (r: Result<(), AddressViolation>)
        ensures
            *final(self) == resume_transition(*old(self), cur_addr),
            r == resume_check(*old(self), cur_addr),
    {
        match *self {
            GuardState::Unstarted => {
                *self = GuardState::Pinned { addr: cur_addr };
                Ok(())
            },
            GuardState::Pinned { addr } => {
                if cur_addr == addr {
                    Ok(())
                } else {
                    *self = GuardState::Violated { addr };
                    Err(AddressViolation { cause: ViolationCause::BetweenActivations })
                }
            },
            GuardState::Violated { .. } => Ok(()),
        }
    }

    /// The terminal finalize check: skipped while the surrounding execution
    /// is unwinding from an unrelated failure, vacuous for a guard never
    /// activated, and a last address validation otherwise.
    pub fn on_finalize(&self, cur_addr: usize, unwinding: bool) -> (r: Result<
        (),
        AddressViolation,
    >)
        ensures
            r == finalize_check(*self, cur_addr, unwinding),
    {
        if unwinding {
            Ok(())
        } else {
            match *self {
                GuardState::Pinned { addr } => {
                    if cur_addr == addr {
                        Ok(())
                    } else {
                        Err(AddressViolation { cause: ViolationCause::BeforeFinalization })
                    }
                },
                _ => Ok(()),
            }
        }
    }
}

/// Guard around one suspendable computation. It owns the computation for its
/// whole lifetime and keeps the address-stability state beside it; the checks
/// never inspect or alter the computation itself.
#[derive(Clone, Debug)]
pub struct AssertUnmoved<Fut> {
    future: Fut,
    state: GuardState,
}

impl<Fut> AssertUnmoved<Fut> {
    /// The state of the address check for this guard.
    pub closed spec fn guard_state(self) -> GuardState {
        self.state
    }

    /// The wrapped computation.
    pub closed spec fn computation(self) -> Fut {
        self.future
    }

    /// Wraps a computation. No address is captured yet: a computation that
    /// has never been resumed may still be relocated freely.
    pub fn new(future: Fut) -> (r: Self)
        ensures
            r.guard_state() == GuardState::Unstarted,
            r.computation() == future,
    {
        AssertUnmoved { future, state: GuardState::Unstarted }
    }

    /// The address check a resume call performs before delegating to the
    /// wrapped computation, given the address the guard sits at now. The
    /// computation itself is left untouched, so on `Ok` the caller's resume
    /// of it behaves exactly as a direct resume would.
    pub fn check_resume(&mut self, cur_addr: usize) -> (r: Result<(), AddressViolation>)
        ensures
            final(self).guard_state() == resume_transition(old(self).guard_state(), cur_addr),
            final(self).computation() == old(self).computation(),
            r == resume_check(old(self).guard_state(), cur_addr),
    {
        self.state.on_resume(cur_addr)
    }

    /// The address check the terminal finalize step performs, given the
    /// address the guard sits at now and whether the surrounding execution
    /// is already unwinding from an unrelated failure.
    pub fn check_finalize(&self, cur_addr: usize, unwinding: bool) -> (r: Result<
        (),
        AddressViolation,
    >)
        ensures
            r == finalize_check(self.guard_state(), cur_addr, unwinding),
    {
        self.state.on_finalize(cur_addr, unwinding)
    }

    /// Gives the wrapped computation back, unchanged.
    pub fn into_inner(self) -> (r: Fut)
        ensures
            r == self.computation(),
    {
        let AssertUnmoved { future, state: _ } = self;
        future
    }
}

} // verus!
