use vstd::prelude::*;

verus! {

/// Why a guard raised its failure: the wrapped computation was found at a
/// different storage address than the one observed at first activation.
#[derive(Clone, Copy, Debug, PartialEq, Eq, Structural)]
pub enum ViolationCause {
    /// The relocation was detected by a resume call.
    BetweenActivations,
    /// The relocation was detected by the terminal finalize step.
    BeforeFinalization,
}

/// The sole failure kind a guard can raise: the pinning contract was broken.
#[derive(Clone, Copy, Debug, PartialEq, Eq, Structural)]
pub struct AddressViolation {
    pub cause: ViolationCause,
}

/// The diagnostic line that belongs to each cause.
pub open spec fn message_spec(cause: ViolationCause) -> Seq<char> {
    match cause {
        ViolationCause::BetweenActivations => "Future moved between poll calls"@,
        ViolationCause::BeforeFinalization => "Future moved before drop"@,
    }
}

impl AddressViolation {
    /// The diagnostic line for this violation, fit for a test harness to print.
    pub fn message(&self) -> (r: &'static str)
        ensures
            r@ == message_spec(self.cause),
    {
        match self.cause {
            ViolationCause::BetweenActivations => "Future moved between poll calls",
            ViolationCause::BeforeFinalization => "Future moved before drop",
        }
    }
}

} // verus!
