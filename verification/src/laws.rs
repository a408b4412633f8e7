use vstd::prelude::*;

use crate::guard::finalize_check;
use crate::guard::resume_check;
use crate::guard::resume_transition;
use crate::guard::GuardState;
use crate::violation::AddressViolation;
use crate::violation::ViolationCause;

verus! {

/// The guard state after a sequence of resume calls, each made while the
/// guard sits at the corresponding address.
pub open spec fn run_resumes(s: GuardState, addrs: Seq<usize>) -> GuardState
    decreases addrs.len(),
{
    if addrs.len() == 0 {
        s
    } else {
        run_resumes(resume_transition(s, addrs[0]), addrs.subrange(1, addrs.len() as int))
    }
}

/// Whether every resume in the sequence passes its address check.
pub open spec fn resumes_all_pass(s: GuardState, addrs: Seq<usize>) -> bool
    decreases addrs.len(),
{
    if addrs.len() == 0 {
        true
    } else {
        resume_check(s, addrs[0]) is Ok && resumes_all_pass(
            resume_transition(s, addrs[0]),
            addrs.subrange(1, addrs.len() as int),
        )
    }
}

/// A guard that was never resumed can be finalized without a violation,
/// wherever it sits and wherever it was placed beforehand.
pub proof fn law_finalize_without_resume(cur_addr: usize, unwinding: bool)
    ensures
        finalize_check(GuardState::Unstarted, cur_addr, unwinding) is Ok,
{
}

/// A guard resumed once and then finalized at the same address raises no
/// violation at either step.
pub proof fn law_resume_then_finalize_in_place(addr: usize, unwinding: bool)
    ensures
        resume_check(GuardState::Unstarted, addr) is Ok,
        finalize_check(resume_transition(GuardState::Unstarted, addr), addr, unwinding) is Ok,
{
}

/// Resuming at one address and then at a different address raises the
/// violation caused by relocation between activations — and no later resume
/// or finalize check on the same guard can raise a second one, wherever the
/// guard sits by then.
pub proof fn law_relocation_between_resumes(
    a: usize,
    b: usize,
    later_addr: usize,
    unwinding: bool,
)
    requires
        b != a,
    ensures
        ({
            let pinned = resume_transition(GuardState::Unstarted, a);
            let after = resume_transition(pinned, b);
            &&& resume_check(pinned, b) == Err::<(), AddressViolation>(
                AddressViolation { cause: ViolationCause::BetweenActivations },
            )
            &&& resume_check(after, later_addr) is Ok
            &&& finalize_check(after, later_addr, unwinding) is Ok
        }),
{
}

/// Resuming at one address and finalizing at a different one, with no
/// intervening resume and no unwinding in progress, raises the violation
/// caused by relocation before finalization.
pub proof fn law_relocation_before_finalize(a: usize, b: usize)
    requires
        b != a,
    ensures
        finalize_check(resume_transition(GuardState::Unstarted, a), b, false) == Err::<
            (),
            AddressViolation,
        >(AddressViolation { cause: ViolationCause::BeforeFinalization }),
{
}

/// While the surrounding execution is already unwinding from an unrelated
/// failure, finalization raises no violation, whatever the guard has seen
/// and wherever it now sits: only the one original failure surfaces.
pub proof fn law_no_second_failure_during_unwinding(s: GuardState, cur_addr: usize)
    ensures
        finalize_check(s, cur_addr, true) is Ok,
{
}

/// A guard already found relocated never raises again: at most one violation
/// per guard instance, whatever checks follow.
pub proof fn law_at_most_one_violation(addr: usize, cur_addr: usize, unwinding: bool)
    ensures
        resume_check(GuardState::Violated { addr }, cur_addr) is Ok,
        resume_transition(GuardState::Violated { addr }, cur_addr) == (GuardState::Violated {
            addr,
        }),
        finalize_check(GuardState::Violated { addr }, cur_addr, unwinding) is Ok,
{
}

/// An observed address is captured at most once: a resume never rewrites an
/// address that an earlier resume has already captured.
pub proof fn law_observed_address_stable(s: GuardState, cur_addr: usize)
    ensures
        s.observed() is Some ==> resume_transition(s, cur_addr).observed() == s.observed(),
        s.observed() is None ==> resume_transition(s, cur_addr).observed() == Some(cur_addr),
{
}

proof fn lemma_unmoved_runs(addr: usize, addrs: Seq<usize>, s: GuardState)
    requires
        forall|i: int| 0 <= i < addrs.len() ==> addrs[i] == addr,
        s == GuardState::Unstarted || s == (GuardState::Pinned { addr }),
    ensures
        resumes_all_pass(s, addrs),
        run_resumes(s, addrs) == s || run_resumes(s, addrs) == (GuardState::Pinned { addr }),
    decreases addrs.len(),
{
    if addrs.len() > 0 {
        let rest = addrs.subrange(1, addrs.len() as int);
        lemma_unmoved_runs(addr, rest, resume_transition(s, addrs[0]));
    }
}

/// With every resume made at one and the same address — the guard never
/// relocating — every resume check passes, so each resume delegates to the
/// wrapped computation and the caller sees exactly the computation's own
/// suspension and result sequence; finalizing there raises nothing either.
pub proof fn law_transparent_when_unmoved(addr: usize, addrs: Seq<usize>, unwinding: bool)
    requires
        forall|i: int| 0 <= i < addrs.len() ==> addrs[i] == addr,
    ensures
        resumes_all_pass(GuardState::Unstarted, addrs),
        finalize_check(run_resumes(GuardState::Unstarted, addrs), addr, unwinding) is Ok,
{
    lemma_unmoved_runs(addr, addrs, GuardState::Unstarted);
}

} // verus!
